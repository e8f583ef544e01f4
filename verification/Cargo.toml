[package]
name = "hermesd"
version = "0.1.0"
edition = "2021"
publish = false

[dependencies]
os_type = "*"
clap = { version = "4", features = ["derive", "env"] }
log = "*"
env_logger = "*"
