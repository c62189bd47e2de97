[package]
name = "builder"
version = "0.1.0"
edition = "2021"

[dependencies]
quote = "=1.0.47"
syn = "=2.0.119"

[dev-dependencies]
syn = { version = "=2.0.119", features = ["full"] }
