[package]
name = "lapce_rust"
version = "0.1.0"
edition = "2021"
publish = false

[dependencies]
anyhow = "=1.0.104"
flate2 = "=1.1.10"
lapce-plugin = "=0.1.2"
lsp-types = "0.95"
serde = { version = "=1.0.229", features = ["derive"] }
serde_json = "=1.0.154"
url = "=2.5.8"
zip = { version = "=9.0.5", default-features = false, features = ["deflate"] }
