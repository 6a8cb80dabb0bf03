[package]
name = "reconnecting-jsonrpsee-ws-client"
version = "0.4.1"
edition = "2021"
publish = false

[dependencies]
finito = "=0.1.0"
futures = "=0.3.34"
jsonrpsee = { version = "=0.22.5", features = ["ws-client", "async-client"] }
serde_json = { version = "=1.0.154", features = ["raw_value"] }
thiserror = "=1.0.69"
tokio = { version = "=1.54.1", features = ["sync", "rt", "time", "macros"] }
tracing = "=0.1.44"
