[package]
name = "coinbase_trader"
version = "0.1.0"
edition = "2021"
publish = false

[dependencies]
chrono = "*"
serde = { version = "*", features = ["derive"] }
serde_json = "*"
reqwest = { version = "*", default-features = false, features = ["blocking", "json", "rustls-tls"] }
base64 = "*"
p256 = { version = "*", features = ["ecdsa", "pem"] }
uuid = { version = "*", features = ["v4"] }
