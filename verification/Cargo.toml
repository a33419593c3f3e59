[package]
name = "shadow_subscribe"
version = "0.1.0"
edition = "2021"
publish = false

[dependencies]
jsonrpsee = { version = "=0.22.5", features = ["server"] }
serde = { version = "=1.0.229", features = ["derive"] }
tokio = { version = "=1.54.1", features = ["rt", "sync"] }
tracing = "0.1"
