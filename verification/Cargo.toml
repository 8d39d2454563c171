[package]
name = "session_store"
version = "0.1.0"
edition = "2021"
publish = false

[dependencies]
serde_json = "1"
uuid = { version = "1", features = ["v4"] }
cookie = { version = "0.18", features = ["signed", "private"] }
redis = "*"
