[package]
name = "cache"
version = "0.1.0"
edition = "2021"
publish = false

[dependencies]
bitcode = { version = "*", features = ["serde"] }
serde_json = "1"
