[package]
name = "minechat_protocol"
version = "0.1.0"
edition = "2021"
publish = false

[dependencies]
log = "0.4"
miette = "7"
serde = { version = "1", features = ["derive"] }
serde_json = "1"
thiserror = "1"
tokio = { version = "1", features = ["io-util", "net"] }
uuid = { version = "1", features = ["v4"] }
