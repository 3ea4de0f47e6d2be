[package]
name = "rust_crypto"
version = "0.1.0"
edition = "2021"
publish = false

[dependencies]
aes-gcm = "0.10"
argon2 = "0.5"
blake3 = "1"
hex = "0.4"
hmac = "0.12"
md5 = "0.7"
rayon = "1"
sha2 = "0.10"
tokio = { version = "1", features = ["fs"] }
