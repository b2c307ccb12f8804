[package]
name = "devicehub"
version = "0.1.0"
edition = "2021"
publish = false

[dependencies]
arboard = "3"
idevice = { version = "*", features = ["full"] }
image = { version = "0.25", default-features = false, features = ["png", "jpeg", "tiff"] }
tokio = { version = "1", features = ["full"] }
tracing = "0.1"
tracing-subscriber = { version = "0.3", features = ["env-filter"] }
uuid = { version = "1", features = ["v4"] }
