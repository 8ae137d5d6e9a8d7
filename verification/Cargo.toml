[package]
name = "rpc_router"
version = "0.1.0"
edition = "2021"
publish = false

[dependencies]
axum = "0.6"
http = "0.2"
hyper = "0.14"
jsonrpsee = { version = "0.16", features = ["server"] }
metrics = "*"
serde_json = "1"
tokio = { version = "1", features = ["full"] }
tower = "0.4"
tracing = "0.1"
tracing-subscriber = "0.3"
