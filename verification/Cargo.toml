[package]
name = "nbxdca"
version = "0.1.0"
edition = "2021"
publish = false

[dependencies]
base64 = "0.13"
hmac = "0.12"
sha2 = "0.10"
serde_json = "1"
serde = { version = "1", features = ["derive"] }
reqwest = { version = "0.11", default-features = false, features = ["blocking"] }
chrono = { version = "0.4", default-features = false, features = ["clock"] }
clap = "4"
toml = "0.8"
