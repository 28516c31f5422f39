[package]
name = "ghostink"
version = "0.1.0"
edition = "2021"
publish = false

[dependencies]
aes-gcm = "*"
base64 = "*"
chrono = "*"
clap = { version = "*", features = ["derive"] }
clap-stdin = "*"
eyre = "*"
hex = "*"
humantime = "*"
rand = "*"
serde = { version = "*", features = ["derive"] }
serde_json = "*"
uuid = { version = "*", features = ["v4"] }
