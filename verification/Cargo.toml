[package]
name = "divergence"
version = "0.1.0"
edition = "2021"
publish = false

[dependencies]
chrono = "*"
dirs = "*"
uuid = { version = "*", features = ["v4"] }
serde_json = "*"
