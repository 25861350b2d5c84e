[package]
name = "wanikani_api"
version = "0.1.0"
edition = "2021"
publish = false

[dependencies]
chrono = "0.4"
log = "0.4"
rand = "0.8"
reqwest = { version = "0.12", default-features = false }
serde_json = "1"
url = "2"
