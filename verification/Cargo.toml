[package]
name = "sentinel"
version = "0.1.0"
edition = "2021"
publish = false

[dependencies]
regex = "1"
dashmap = "*"
anyhow = "1"
log = "0.4"
env_logger = "*"
libc = "0.2"
linemux = "*"
notify = "*"
serde = { version = "1", features = ["derive"] }
serde_yaml = "*"
tokio = { version = "1", features = ["rt-multi-thread", "macros"] }
