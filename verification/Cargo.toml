[package]
name = "rem"
version = "0.1.0"
edition = "2021"
publish = false

[dependencies]
base64 = "*"
sanitize-filename = "*"
serde_json = "*"
url = "*"
urlencoding = "*"
dirs = "*"
serde = { version = "*", features = ["derive"] }
toml = "*"
reqwest = { version = "*", default-features = false, features = ["blocking", "rustls-tls"] }
