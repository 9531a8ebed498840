[package]
name = "rift_app"
version = "0.1.0"
edition = "2021"
publish = false

[dependencies]
uuid = { version = "1", features = ["v4"] }
serde = { version = "1", features = ["derive"] }
serde_json = "1"
regex = "1"
anyhow = "1"
url = "2"
chrono = "0.4"
log = "0.4"
thiserror = "2"
async-channel = "2"
