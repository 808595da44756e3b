[package]
name = "app_core"
version = "0.1.0"
edition = "2021"
publish = false

[dependencies]
base64 = "0.21"
percent-encoding = "2"
futures = { version = "0.3", features = ["thread-pool"] }
