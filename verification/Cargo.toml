[package]
name = "body_transform"
version = "0.1.0"
edition = "2021"
publish = false

[dependencies]
serde_json = { version = "1", features = ["preserve_order"] }
chrono = "0.4"
proxy-wasm = "0.2"
