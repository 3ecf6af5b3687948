[package]
name = "rem"
version = "0.1.0"
edition = "2021"
publish = false

[dependencies]
p256 = { version = "*", features = ["ecdsa"] }
sha2 = "*"
