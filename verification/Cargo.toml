[package]
name = "dwbhk"
version = "0.1.0"
edition = "2021"
publish = false

[dependencies]
lazy_static = "1"
reqwest = { version = "0.11", features = ["blocking"] }
serde_json = "1"
