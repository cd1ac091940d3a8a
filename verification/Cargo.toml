[package]
name = "websocket-util"
version = "0.1.0"
edition = "2021"
publish = false

[dependencies]
futures = "0.3"
tokio = { version = "1", features = ["time"] }
tokio-tungstenite = "0.21"
tracing = "0.1"
