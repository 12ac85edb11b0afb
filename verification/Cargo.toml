[package]
name = "tide_validator"
version = "0.1.0"
edition = "2021"
publish = false

[dependencies]
serde = { version = "=1.0.229", features = ["derive"] }
serde_json = "=1.0.154"
tide = "=0.16.0"

[dev-dependencies]
async-std = "=1.13.2"
