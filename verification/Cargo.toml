[package]
name = "gateway"
version = "0.1.0"
edition = "2021"
publish = false

[dependencies]
actix = "*"
actix-rt = "*"
actix-web = "*"
actix-web-actors = "*"
bytes = "*"
env_logger = "*"
redis = { version = "*", default-features = false }
serde = { version = "*", features = ["derive"] }
serde_json = "*"
serde_repr = "*"
uuid = { version = "*", features = ["v4", "serde"] }
