[package]
name = "logic"
version = "0.1.0"
edition = "2021"
publish = false

[dependencies]
protobuf = "2"
sled = "0.34"
tokio = { version = "1", features = ["rt-multi-thread"] }
log = "0.4"
env_logger = "*"
lazy_static = "1"
sxd-xpath = "*"
sxd-document = "*"
