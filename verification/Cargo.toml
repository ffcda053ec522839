[package]
name = "proxy_env_switcher"
version = "0.1.0"
edition = "2021"
publish = false

[dependencies]
env_logger = "0.10"
log = "0.4"
serde = { version = "1", features = ["derive"] }
