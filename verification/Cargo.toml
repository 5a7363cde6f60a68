[package]
name = "dao_demo"
version = "0.1.0"
edition = "2021"
publish = false

[dependencies]
chrono = "*"
serde_json = "*"
uuid = { version = "*", features = ["v4"] }
