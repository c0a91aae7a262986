[package]
name = "gira_iot_api"
version = "0.1.0"
edition = "2021"
publish = false

[dependencies]
serde_json = "*"
serde = { version = "*", features = ["derive"] }
tokio = { version = "*", features = ["rt-multi-thread", "macros", "sync", "net"] }
reqwest = { version = "*", default-features = false, features = ["rustls-tls"] }
axum = "*"
tracing = "*"
tracing-subscriber = "*"
