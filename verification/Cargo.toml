[package]
name = "monolog"
version = "0.1.0"
edition = "2021"
publish = false

[dependencies]
chrono = "0.4"
regex = "1"
reqwest = { version = "0.12", features = ["blocking"] }
serde_json = "1.0"
zip = { version = "2", default-features = false, features = ["deflate"] }
