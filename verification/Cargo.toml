[package]
name = "lattice_control"
version = "0.1.0"
edition = "2021"
publish = false

[dependencies]
url = "2"
async-nats = "*"
tokio = { version = "1", features = ["full"] }
futures = "0.3"
serde = { version = "1", features = ["derive"] }
serde_json = "1"
cloudevents-sdk = "*"
tracing = "0.1"
anyhow = "1"
