[package]
name = "cfkv"
version = "0.1.0"
edition = "2021"
publish = false

[dependencies]
log = "*"
reqwest = { version = "*", default-features = false, features = ["json"] }
serde_json = "*"
