[package]
name = "containerization_framework"
version = "0.1.0"
edition = "2021"
publish = false

[dependencies]
libc = "0.2"
serde_json = "1"
swift-bridge = "0.1"
