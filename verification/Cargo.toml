[package]
name = "misskey_bot"
version = "0.1.0"
edition = "2021"
publish = false

[dependencies]
filetime = "0.2"
markov = "*"
regex = "1"
reqwest = { version = "0.12", default-features = false, features = ["blocking", "json", "rustls-tls"] }
serde = { version = "1", features = ["derive"] }
serde_json = "1"
serde_yaml = "0.9"
