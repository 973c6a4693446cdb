[package]
name = "chat_relay"
version = "0.1.0"
edition = "2021"
publish = false

[dependencies]
tokio = { version = "1", features = ["full"] }
tonic = { version = "0.12", features = ["transport", "tls"] }
prost = "0.13"
tokio-stream = "0.1"
async-stream = "0.3"
hostname = "*"
