use builder::descriptor::{FieldDescriptor, Shape, ShapeError, TypeDefinition};
use builder::source::{self, expand, DeriveError};
use builder::synth::generate;
use quote::ToTokens;

fn config_definition() -> TypeDefinition {
    TypeDefinition {
        name: "Config".to_string(),
        shape: Shape::Record(vec![
            FieldDescriptor { name: "host".to_string(), ty: "String".to_string() },
            FieldDescriptor { name: "port".to_string(), ty: "u16".to_string() },
        ]),
    }
}

#[test]
fn derive_reads_a_record_and_generates_its_builder() {
    let expected = generate(config_definition()).unwrap().source();
    assert_eq!(source::derive("struct Config { host: String, port: u16 }"), Ok(expected.clone()));
    assert_eq!(
        source::derive("#[derive(Debug)]\npub struct Config {\n    pub host: String,\n    port: u16,\n}"),
        Ok(expected)
    );
}

#[test]
fn derive_output_for_config() {
    let code = source::derive("struct Config { host: String, port: u16 }").unwrap();
    assert!(code.starts_with("impl Config {\n    pub fn builder() -> ConfigBuilder {\n"));
    assert!(code.contains("pub struct ConfigBuilder {\n    host: Option<String>,\n    port: Option<u16>,\n}\n"));
    assert!(code.contains("    pub fn host(&mut self, host: String) -> &mut Self {\n"));
    assert!(code.contains("    pub fn port(&mut self, port: u16) -> &mut Self {\n"));
    assert!(code.contains("    pub fn build(&self) -> Result<Config, Box<dyn std::error::Error>> {\n"));
}

#[test]
fn derive_keeps_declaration_order() {
    let code = source::derive("struct Triple { c: u8, a: u8, b: u8 }").unwrap();
    let c = code.find("pub fn c(").unwrap();
    let a = code.find("pub fn a(").unwrap();
    let b = code.find("pub fn b(").unwrap();
    assert!(c < a && a < b);
    let c = code.find("let c = match").unwrap();
    let a = code.find("let a = match").unwrap();
    let b = code.find("let b = match").unwrap();
    assert!(c < a && a < b);
}

#[test]
fn derive_keeps_the_tokens_of_a_field_type() {
    let code = source::derive("struct Bag { items: Vec<Option<String>>, pair: (u8, [u16; 2]) }").unwrap();
    let file = syn::parse_str::<syn::File>(&code).unwrap();
    let slots = match &file.items[1] {
        syn::Item::Struct(item) => item.fields.iter().cloned().collect::<Vec<syn::Field>>(),
        _ => panic!("not a struct"),
    };
    let expected_items = syn::parse_str::<syn::Type>("Option<Vec<Option<String>>>").unwrap();
    let expected_pair = syn::parse_str::<syn::Type>("Option<(u8, [u16; 2])>").unwrap();
    assert_eq!(slots.len(), 2);
    assert_eq!(
        slots[0].ty.to_token_stream().to_string(),
        expected_items.to_token_stream().to_string()
    );
    assert_eq!(
        slots[1].ty.to_token_stream().to_string(),
        expected_pair.to_token_stream().to_string()
    );
}

#[test]
fn derive_rejects_a_record_with_an_empty_field_list() {
    assert_eq!(source::derive("struct Nothing {}"), Err(DeriveError::Shape(ShapeError::FieldLess)));
    assert_eq!(
        source::derive("pub struct Nothing { }"),
        Err(DeriveError::Shape(ShapeError::FieldLess))
    );
}

#[test]
fn derive_rejects_a_tuple_struct() {
    assert_eq!(source::derive("struct Pair(u8, u8);"), Err(DeriveError::Shape(ShapeError::TupleShaped)));
}

#[test]
fn derive_rejects_a_unit_struct() {
    assert_eq!(source::derive("struct Marker;"), Err(DeriveError::Shape(ShapeError::FieldLess)));
}

#[test]
fn derive_rejects_an_enum() {
    assert_eq!(source::derive("enum Choice { A, B(u8) }"), Err(DeriveError::Shape(ShapeError::NotRecord)));
}

#[test]
fn derive_rejects_a_union() {
    assert_eq!(
        source::derive("union Overlay { a: u32, b: f32 }"),
        Err(DeriveError::Shape(ShapeError::NotRecord))
    );
}

#[test]
fn derive_reports_what_does_not_parse() {
    for text in ["", "fn main() {}", "struct", "struct Config { host String }", "struct A {} struct B {}"] {
        match source::derive(text) {
            Err(DeriveError::Syntax(message)) => assert!(!message.is_empty()),
            other => panic!("{:?}", other),
        }
    }
}

#[test]
fn expand_passes_the_parser_message_on() {
    let got = expand(Err("expected one of: `struct`, `enum`, `union`".to_string()));
    assert_eq!(
        got,
        Err(DeriveError::Syntax("expected one of: `struct`, `enum`, `union`".to_string()))
    );
    assert_eq!(got.unwrap_err().message(), "expected one of: `struct`, `enum`, `union`");
}

#[test]
fn expand_generates_for_a_definition() {
    let expected = generate(config_definition()).unwrap().source();
    assert_eq!(expand(Ok(config_definition())), Ok(expected));
}

#[test]
fn expand_refuses_a_type_without_fields() {
    let unit = TypeDefinition { name: "Marker".to_string(), shape: Shape::Unit };
    assert_eq!(expand(Ok(unit)), Err(DeriveError::Shape(ShapeError::FieldLess)));
    let empty = TypeDefinition { name: "Nothing".to_string(), shape: Shape::Record(Vec::new()) };
    let got = expand(Ok(empty));
    assert_eq!(got, Err(DeriveError::Shape(ShapeError::FieldLess)));
    assert_eq!(got.unwrap_err().message(), "Unit struct or unit variant are not supported");
}

#[test]
fn expand_refuses_a_shape() {
    let pair = TypeDefinition { name: "Pair".to_string(), shape: Shape::Tuple };
    let got = expand(Ok(pair));
    assert_eq!(got, Err(DeriveError::Shape(ShapeError::TupleShaped)));
    assert_eq!(
        got.unwrap_err().message(),
        "Unnamed fields of a tuple struct or tuple variant are not supported"
    );
}
