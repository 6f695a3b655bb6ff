[package]
name = "redisql"
version = "0.1.0"
edition = "2021"
publish = false

[dependencies]
fnv = "1"
uuid = { version = "0.8", features = ["v4"] }
serde = { version = "1", features = ["derive"] }
serde_json = "1"
log = "0.4"
env_logger = "0.9"
libc = "0.2"
hyper = "0.10"
