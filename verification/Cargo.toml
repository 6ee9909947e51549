[package]
name = "gateway_core"
version = "0.1.0"
edition = "2021"
publish = false

[dependencies]
uuid = { version = "1", features = ["v4"] }
async-nats = "*"
tokio = { version = "1", features = ["rt-multi-thread", "macros", "sync", "signal", "net"] }
twilight-gateway = "*"
twilight-model = "*"
axum = "*"

[dev-dependencies]
serde_json = "1"
