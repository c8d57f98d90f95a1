[package]
name = "agentflow_runtime"
version = "0.1.0"
edition = "2021"
publish = false

[dependencies]
wasmtime = "=48.0.5"
tokio = { version = "*", features = ["full"] }
async-nats = "=0.50.0"
clap = "*"
serde_json = "*"
anyhow = "*"
tracing = "*"
tracing-subscriber = "*"
futures-util = "*"
