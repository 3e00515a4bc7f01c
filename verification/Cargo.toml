[package]
name = "tracing_utils"
version = "0.1.0"
edition = "2021"
publish = false

[dependencies]
bigdecimal = "*"
chrono = { version = "*", default-features = false, features = ["std"] }
serde_json = "*"
tracing = "*"
