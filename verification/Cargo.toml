[package]
name = "mcstatus"
version = "0.1.0"
edition = "2021"
publish = false

[dependencies]
serde_json = "1"
async-minecraft-ping = "*"
rocket = { version = "0.5", features = ["json"] }
tokio = { version = "1", features = ["time"] }
