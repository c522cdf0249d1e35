[package]
name = "wasm3_provider"
version = "0.1.0"
edition = "2021"
publish = false

[dependencies]
anyhow = "*"
async-trait = "*"
chrono = "*"
env_logger = "*"
futures = "*"
log = "*"
tempfile = "*"
tokio = { version = "*", features = ["full"] }
wasm3 = "*"
