[package]
name = "json_rpc"
version = "0.1.0"
edition = "2021"
publish = false

[dependencies]
axum = "*"
num_cpus = "=1.17.0"
serde = { version = "=1.0.229", features = ["derive"] }
serde_json = "=1.0.154"
thiserror = "=1.0.69"
tokio = { version = "=1.54.1", features = ["rt", "net", "io-util", "sync"] }
tracing = "=0.1.44"
