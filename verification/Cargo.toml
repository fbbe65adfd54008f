[package]
name = "rustdesk_server"
version = "0.1.0"
edition = "2021"
publish = false

[dependencies]
dashmap = "5"
chrono = "0.4"
uuid = { version = "1", features = ["v4"] }
tokio = { version = "1", features = ["full"] }
tonic = "0.12"
prost = "0.13"
async-channel = "1"
futures = "0.3"
smol = "1"
anyhow = "1"
tracing = "0.1"
tracing-subscriber = "0.3"
socket2 = "0.3"
lazy_static = "1"
async-std = "1"
async-tungstenite = { version = "*", features = ["tokio-runtime"] }
