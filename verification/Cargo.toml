[package]
name = "porygon"
version = "0.1.1"
edition = "2021"
publish = false

[dependencies]
serde_json = "=1.0.154"
serde = { version = "=1.0.229", features = ["derive"] }
motosan-agent-loop = "=0.13.1"
motosan-agent-tool = "=0.3.2"
axum = "=0.8.9"
tokio = { version = "=1.54.1", features = ["rt-multi-thread", "macros", "net", "sync", "time"] }
tokio-stream = "=0.1.19"
futures-util = "=0.3.34"
reqwest = { version = "=0.12.28", default-features = false, features = ["json", "stream"] }
async-trait = "=0.1.92"
tracing = "=0.1.44"
