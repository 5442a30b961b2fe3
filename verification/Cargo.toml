[package]
name = "gsi_server"
version = "0.1.0"
edition = "2021"
publish = false

[dependencies]
axum = "=0.8.9"
axum-server = "=0.7.3"
serde_json = "=1.0.154"
tokio = { version = "=1.54.1", features = ["net", "rt", "rt-multi-thread", "sync", "time"] }
tracing = "=0.1.44"
