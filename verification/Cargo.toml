[package]
name = "str0m"
version = "0.1.0"
edition = "2021"
publish = false

[dependencies]
dimpl = { version = "=0.4.0", default-features = false }
openssl = "=0.10.82"
