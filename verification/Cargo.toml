[package]
name = "rust_web_server"
version = "0.1.0"
edition = "2021"
publish = false

[dependencies]
ctrlc = "*"
env_logger = "*"
lazy_static = "*"
log = "*"
