[package]
name = "miner_backend"
version = "0.1.0"
edition = "2021"
publish = false

[dependencies]
candid = "*"
ic-cdk = "*"
ic-cdk-timers = "*"
serde = { version = "*", features = ["derive"] }
serde_json = "*"
