[package]
name = "wait_until"
version = "0.1.0"
edition = "2021"
publish = false

[dependencies]
anyhow = "=1.0.104"
async-std = { version = "=1.13.2", features = ["attributes", "unstable"] }
log = "=0.4.34"
parse_duration = "=2.1.1"
pretty_env_logger = "=0.5.0"
