[package]
name = "rwrs_server"
version = "0.1.0"
edition = "2021"
publish = false

[dependencies]
serde_json = "=1.0.151"
serde = { version = "1", features = ["derive"] }
reqwest = { version = "0.12", default-features = false }
tokio = { version = "1", features = ["rt-multi-thread", "macros", "sync", "time", "fs"] }
salvo = { version = "=1.0.1", features = ["affix-state", "serve-static", "logging", "request-id"] }
tracing = "0.1"
tracing-subscriber = "0.3"
