[package]
name = "multiplayer"
version = "0.1.0"
edition = "2021"
publish = false

[dependencies]
uuid = { version = "*", features = ["v4"] }
time = "*"
serde = { version = "*", features = ["derive"] }
serde_json = "*"
