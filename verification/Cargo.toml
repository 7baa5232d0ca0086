[package]
name = "zero2prod_core"
version = "0.1.0"
edition = "2021"
publish = false

[dependencies]
validator = "=0.16.1"
base64 = "=0.23.1"
argon2 = "=0.6.0"
rand = "=0.8.8"
urlencoding = "*"

[dev-dependencies]
fake = "=2.10.0"
