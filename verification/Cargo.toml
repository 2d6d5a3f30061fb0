[package]
name = "auth_core"
version = "0.1.0"
edition = "2021"
publish = false

[dependencies]
askama = "*"
async-trait = "*"
base64 = "*"
chrono = "*"
cot = "*"
hex = "*"
hmac = "*"
num-bigint = "*"
num-traits = "*"
sha2 = "*"
