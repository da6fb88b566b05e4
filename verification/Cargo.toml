[package]
name = "socket2web"
version = "0.1.0"
edition = "2021"
publish = false

[dependencies]
serde_json = "1"
tokio = { version = "1", features = ["full"] }
tokio-tungstenite = "0.24"
tokio-util = "0.7"
futures-util = { version = "0.3", features = ["sink"] }
tracing = "0.1"
tracing-subscriber = { version = "0.3", features = ["env-filter"] }
argh = "0.1"
opentelemetry = "0.29"
opentelemetry_sdk = "0.29"
opentelemetry-stdout = "0.29"
