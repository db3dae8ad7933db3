[package]
name = "ndmsd"
version = "0.1.0"
edition = "2021"
publish = false

[dependencies]
sqlite = "*"
log = "*"
simple_logger = "*"
rocket = "*"
rocket_cors = "*"

[dev-dependencies]
serde_json = "*"
