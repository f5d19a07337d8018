[package]
name = "palantir_agent"
version = "0.1.0"
edition = "2021"
publish = false

[dependencies]
serde = { version = "1", features = ["derive"] }
serde_yaml = "0.9"
hyper = { version = "0.14", features = ["client", "http1", "tcp"] }
url = "2"
log = "0.4"
simple_logger = "4"
