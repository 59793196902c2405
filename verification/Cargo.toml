[package]
name = "trek_rank"
version = "0.1.0"
edition = "2021"
publish = false

[dependencies]
iron = "*"
params = "*"
logger = "*"
env_logger = "*"
serde = "*"
serde_derive = "*"
serde_json = "*"
