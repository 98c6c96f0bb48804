[package]
name = "siafu"
version = "0.1.0"
edition = "2021"
publish = false

[dependencies]
chrono = "*"
cron = "*"
humantime = "2"
rand = "0.9"
uuid = { version = "1", features = ["v4"] }
