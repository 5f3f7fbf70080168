[package]
name = "user_accounts"
version = "0.1.0"
edition = "2021"
publish = false

[dependencies]
rust-argon2 = "2"
jsonwebtoken = "9"
rand = "0.8"
uuid = { version = "1", features = ["v4"] }
chrono = "0.4"
serde_json = "1"
