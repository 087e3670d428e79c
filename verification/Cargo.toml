[package]
name = "oxignal"
version = "0.1.0"
edition = "2021"
publish = false

[dependencies]
serde = { version = "1", features = ["derive"] }
serde_json = "1"
tokio = { version = "1", features = ["net"] }
tokio-tungstenite = "*"
futures = "0.3"
tracing = "0.1"
