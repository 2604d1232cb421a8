[package]
name = "attestation_verification"
version = "0.1.0"
edition = "2021"
publish = false

[dependencies]
p256 = { version = "*", features = ["ecdsa"] }
aes-gcm = "*"
