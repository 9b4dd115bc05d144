[package]
name = "dnscache"
version = "0.1.0"
edition = "2021"
publish = false

[dependencies]
chrono = "*"
hickory-resolver = "*"
reqwest = { version = "*", default-features = false, features = ["rustls-tls"] }
tokio = { version = "*", features = ["full"] }
tracing = "*"
tracing-subscriber = "*"
