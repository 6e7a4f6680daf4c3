[package]
name = "serde_either"
version = "0.2.1"
edition = "2021"
publish = false

[dependencies]
serde = "1.0"
serde-value = "0.7"

[dev-dependencies]
serde_json = "1.0"
