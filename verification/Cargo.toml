[package]
name = "quantpilot"
version = "0.1.0"
edition = "2021"
publish = false

[dependencies]
serde_json = "1"
zeroize = "1"
sha2 = "0.10"
