[package]
name = "bold"
version = "0.1.0"
edition = "2021"
publish = false

[dependencies]
clap = { version = "4", features = ["derive", "env"] }
colored = "*"
env_logger = "*"
log = "*"
