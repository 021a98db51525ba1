[package]
name = "httpulse_error"
version = "0.1.0"
edition = "2021"
publish = false

[dependencies]
base64 = "*"
cookie = "*"
cookie_store = "*"
hyper = "0.14"
sea-orm = { version = "*", default-features = false }
serde = { version = "1", features = ["derive"] }
serde_json = "1"
url = "2"
zip = { version = "*", default-features = false }
