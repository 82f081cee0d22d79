[package]
name = "locationsharing"
version = "0.1.0"
edition = "2021"
publish = false

[dependencies]
serde_json = "1"
chrono = "0.4"
reqwest = { version = "0.12", default-features = false, features = ["blocking"] }
