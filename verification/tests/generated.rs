use builder::source;

// What the generator emits for `Config` and for `Triple` stands below twice:
// as text, which the first two tests hold against the generator, and as
// code, which the other tests run.

const CONFIG_SOURCE: &str = "struct Config { host: String, port: u16 }";

const CONFIG_UNIT: &str = "impl Config {
    pub fn builder() -> ConfigBuilder {
        ConfigBuilder {
            host: None,
            port: None,
        }
    }
}
pub struct ConfigBuilder {
    host: Option<String>,
    port: Option<u16>,
}
impl ConfigBuilder {
    pub fn host(&mut self, host: String) -> &mut Self {
        self.host = Some(host);
        self
    }
}
impl ConfigBuilder {
    pub fn port(&mut self, port: u16) -> &mut Self {
        self.port = Some(port);
        self
    }
}
impl ConfigBuilder {
    pub fn build(&self) -> Result<Config, Box<dyn std::error::Error>> {
        let host = match &self.host {
            Some(host) => host.clone(),
            None => return Err(format!(\"Missing \\\"{}\\\" field\", \"host\").into()),
        };
        let port = match &self.port {
            Some(port) => port.clone(),
            None => return Err(format!(\"Missing \\\"{}\\\" field\", \"port\").into()),
        };
        Ok(Config {
            host,
            port,
        })
    }
}
";

const TRIPLE_SOURCE: &str = "struct Triple { a: u8, b: String, c: u8 }";

const TRIPLE_UNIT: &str = "impl Triple {
    pub fn builder() -> TripleBuilder {
        TripleBuilder {
            a: None,
            b: None,
            c: None,
        }
    }
}
pub struct TripleBuilder {
    a: Option<u8>,
    b: Option<String>,
    c: Option<u8>,
}
impl TripleBuilder {
    pub fn a(&mut self, a: u8) -> &mut Self {
        self.a = Some(a);
        self
    }
}
impl TripleBuilder {
    pub fn b(&mut self, b: String) -> &mut Self {
        self.b = Some(b);
        self
    }
}
impl TripleBuilder {
    pub fn c(&mut self, c: u8) -> &mut Self {
        self.c = Some(c);
        self
    }
}
impl TripleBuilder {
    pub fn build(&self) -> Result<Triple, Box<dyn std::error::Error>> {
        let a = match &self.a {
            Some(a) => a.clone(),
            None => return Err(format!(\"Missing \\\"{}\\\" field\", \"a\").into()),
        };
        let b = match &self.b {
            Some(b) => b.clone(),
            None => return Err(format!(\"Missing \\\"{}\\\" field\", \"b\").into()),
        };
        let c = match &self.c {
            Some(c) => c.clone(),
            None => return Err(format!(\"Missing \\\"{}\\\" field\", \"c\").into()),
        };
        Ok(Triple {
            a,
            b,
            c,
        })
    }
}
";

#[derive(Debug, PartialEq)]
struct Config {
    host: String,
    port: u16,
}

impl Config {
    pub fn builder() -> ConfigBuilder {
        ConfigBuilder {
            host: None,
            port: None,
        }
    }
}
pub struct ConfigBuilder {
    host: Option<String>,
    port: Option<u16>,
}
impl ConfigBuilder {
    pub fn host(&mut self, host: String) -> &mut Self {
        self.host = Some(host);
        self
    }
}
impl ConfigBuilder {
    pub fn port(&mut self, port: u16) -> &mut Self {
        self.port = Some(port);
        self
    }
}
impl ConfigBuilder {
    pub fn build(&self) -> Result<Config, Box<dyn std::error::Error>> {
        let host = match &self.host {
            Some(host) => host.clone(),
            None => return Err(format!("Missing \"{}\" field", "host").into()),
        };
        let port = match &self.port {
            Some(port) => port.clone(),
            None => return Err(format!("Missing \"{}\" field", "port").into()),
        };
        Ok(Config {
            host,
            port,
        })
    }
}

#[derive(Debug, PartialEq)]
struct Triple {
    a: u8,
    b: String,
    c: u8,
}

impl Triple {
    pub fn builder() -> TripleBuilder {
        TripleBuilder {
            a: None,
            b: None,
            c: None,
        }
    }
}
pub struct TripleBuilder {
    a: Option<u8>,
    b: Option<String>,
    c: Option<u8>,
}
impl TripleBuilder {
    pub fn a(&mut self, a: u8) -> &mut Self {
        self.a = Some(a);
        self
    }
}
impl TripleBuilder {
    pub fn b(&mut self, b: String) -> &mut Self {
        self.b = Some(b);
        self
    }
}
impl TripleBuilder {
    pub fn c(&mut self, c: u8) -> &mut Self {
        self.c = Some(c);
        self
    }
}
impl TripleBuilder {
    pub fn build(&self) -> Result<Triple, Box<dyn std::error::Error>> {
        let a = match &self.a {
            Some(a) => a.clone(),
            None => return Err(format!("Missing \"{}\" field", "a").into()),
        };
        let b = match &self.b {
            Some(b) => b.clone(),
            None => return Err(format!("Missing \"{}\" field", "b").into()),
        };
        let c = match &self.c {
            Some(c) => c.clone(),
            None => return Err(format!("Missing \"{}\" field", "c").into()),
        };
        Ok(Triple {
            a,
            b,
            c,
        })
    }
}

#[test]
fn generated_text_for_config() {
    assert_eq!(source::derive(CONFIG_SOURCE), Ok(CONFIG_UNIT.to_string()));
}

#[test]
fn generated_text_for_triple() {
    assert_eq!(source::derive(TRIPLE_SOURCE), Ok(TRIPLE_UNIT.to_string()));
}

#[test]
fn generated_config_builder_fails_naming_port() {
    let error = Config::builder().host("x".to_string()).build().unwrap_err();
    assert_eq!(error.to_string(), "Missing \"port\" field");
}

#[test]
fn generated_config_builder_succeeds_with_both_fields() {
    let built = Config::builder().host("x".to_string()).port(80).build().unwrap();
    assert_eq!(built, Config { host: "x".to_string(), port: 80 });
}

#[test]
fn generated_setter_overwrites() {
    let mut b = Config::builder();
    b.host("first".to_string()).port(1).host("second".to_string());
    assert_eq!(b.build().unwrap(), Config { host: "second".to_string(), port: 1 });
}

#[test]
fn generated_build_copies_and_can_be_repeated() {
    let mut b = Config::builder();
    b.host("x".to_string()).port(80);
    let first = b.build().unwrap();
    let second = b.build().unwrap();
    assert_eq!(first, second);
    b.port(81);
    assert_eq!(b.build().unwrap(), Config { host: "x".to_string(), port: 81 });
    assert_eq!(first.port, 80);
}

#[test]
fn generated_build_recovers_after_a_failure() {
    let mut b = Config::builder();
    b.port(80);
    assert_eq!(b.build().unwrap_err().to_string(), "Missing \"host\" field");
    b.host("x".to_string());
    assert_eq!(b.build().unwrap(), Config { host: "x".to_string(), port: 80 });
}

#[test]
fn generated_build_reports_the_first_missing_field_in_declaration_order() {
    let mut b = Triple::builder();
    b.a(1).c(3);
    assert_eq!(b.build().unwrap_err().to_string(), "Missing \"b\" field");
    let mut b = Triple::builder();
    b.c(3);
    assert_eq!(b.build().unwrap_err().to_string(), "Missing \"a\" field");
    let mut b = Triple::builder();
    b.a(1).b("two".to_string());
    assert_eq!(b.build().unwrap_err().to_string(), "Missing \"c\" field");
    b.c(3);
    assert_eq!(b.build().unwrap(), Triple { a: 1, b: "two".to_string(), c: 3 });
}
