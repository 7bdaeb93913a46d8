[package]
name = "invite_auth"
version = "0.1.0"
edition = "2021"
publish = false

[dependencies]
bcrypt = "*"
chrono = "*"
jsonwebtoken = { version = "*", features = ["rust_crypto"] }
serde_json = "1"
uuid = { version = "*", features = ["v4"] }
