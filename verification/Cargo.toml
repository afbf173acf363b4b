[package]
name = "slack"
version = "0.20.0"
edition = "2021"
publish = false

[dependencies]
serde_json = "1"
url = "2"
tungstenite = { version = "0.20", features = ["rustls-tls-webpki-roots"] }
reqwest = { version = "0.11", default-features = false, features = ["blocking", "rustls-tls"] }
log = "0.4"
