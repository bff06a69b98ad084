[package]
name = "avalanche_ops"
version = "0.1.0"
edition = "2021"
publish = false

[dependencies]
serde = { version = "1", features = ["derive"] }
serde_json = "1"
serde_yaml = "*"
chrono = "0.4"
rand = "*"
tokio = { version = "1", features = ["rt"] }
