[package]
name = "dts_gen"
version = "0.1.0"
edition = "2021"
publish = false

[dependencies]
serde_json = { version = "*", features = ["preserve_order"] }
anyhow = "*"
log = "*"
env_logger = "*"
