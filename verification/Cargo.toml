[package]
name = "service_sender"
version = "0.1.0"
edition = "2021"
publish = false

[dependencies]
rand = "0.8"
uuid = { version = "1", features = ["v4"] }
zmq = "0.10"
log = "0.4"
env_logger = "0.10"
