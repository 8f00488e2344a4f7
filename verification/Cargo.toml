[package]
name = "tootodo"
version = "0.1.0"
edition = "2021"
publish = false

[dependencies]
mongodb = "*"
serde = { version = "*", features = ["derive"] }
chrono = { version = "*", features = ["serde"] }
uuid = { version = "*", features = ["v4", "serde"] }
