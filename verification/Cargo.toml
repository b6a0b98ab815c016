[package]
name = "webdock"
version = "1.0.0"
edition = "2021"
publish = false

[dependencies]
reqwest = { version = "0.11", features = ["blocking", "json"] }
serde_json = "1"
