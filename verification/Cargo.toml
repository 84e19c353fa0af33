[package]
name = "auth_core"
version = "0.1.0"
edition = "2021"
publish = false

[dependencies]
argon2 = "0.5"
chrono = "0.4"
jsonwebtoken = "9"
rand = "0.9"
serde_json = "1"
validator = "*"
