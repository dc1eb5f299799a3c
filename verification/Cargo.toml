[package]
name = "pubsub"
version = "0.1.0"
edition = "2021"
publish = false

[dependencies]
anyhow = "1"
crossbeam-channel = "0.5"
json_env_logger = "0.1"
log = "0.4"
prost = "0.13"
tarantool = "*"
tokio = { version = "1", features = ["rt-multi-thread", "net", "time"] }
tonic = "0.12"
