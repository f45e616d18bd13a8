[package]
name = "jsonwebkey"
version = "0.1.0"
edition = "2021"
publish = false

[dependencies]
base64 = "0.13"
serde = { version = "1", features = ["derive"] }
serde_json = { version = "1", features = ["preserve_order"] }
yasna = { version = "0.5", features = ["num-bigint"] }
num-bigint = "0.4"
p256 = "0.13"
rand = "0.8"
zeroize = "1"
jsonwebtoken = "9"
