[package]
name = "kr1_core"
version = "0.1.0"
edition = "2021"
publish = false

[dependencies]
serde_json = "1"
urlencoding = "2"
hex = "0.4"
base64 = "0.22"
rand = "0.8"
serde = { version = "1", features = ["derive"] }
reqwest = { version = "0.12", default-features = false, features = ["blocking"] }
dotenvy = "0.15"
