[package]
name = "json_relay"
version = "0.1.0"
edition = "2021"
publish = false

[dependencies]
serde_json = "1"
bytes = "1"
hyper = { version = "0.14", features = ["full"] }
reqwest = { version = "0.11", default-features = false, features = ["json", "rustls-tls"] }
tokio = { version = "1", features = ["full"] }
