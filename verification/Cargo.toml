[package]
name = "fenris"
version = "0.1.0"
edition = "2021"
publish = false

[dependencies]
aes-gcm = "0.10"
x25519-dalek = { version = "2", features = ["static_secrets"] }
hkdf = "0.12"
sha2 = "0.10"
rand = "0.8"
flate2 = "1"
chrono = "0.4"
tokio = { version = "1", features = ["full"] }
tokio-util = "0.7"
