[package]
name = "ias_attest"
version = "0.1.0"
edition = "2021"
publish = false

[dependencies]
base64 = "0.13"
percent-encoding = "2"
openssl = "0.10"
serde_json = "1"
reqwest = { version = "0.11", features = ["blocking"] }

[dev-dependencies]
hex = "0.4"
