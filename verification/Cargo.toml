[package]
name = "gmssl-rs"
version = "0.1.0"
edition = "2021"
publish = false

[dependencies]
libc = "0.2"

[dev-dependencies]
sm3 = "0.4"
hmac = "0.12"
pbkdf2 = "0.12"
