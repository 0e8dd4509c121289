[package]
name = "grpc_stream_manager"
version = "0.1.0"
edition = "2021"
publish = false

[dependencies]
anyhow = "1"
futures = "0.3"
log = "0.4"
tokio = { version = "1", features = ["time"] }
tonic = "*"
tonic-health = "*"
yellowstone-grpc-client = "*"
yellowstone-grpc-proto = { version = "*", default-features = false }
