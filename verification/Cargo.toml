[package]
name = "vsf"
version = "0.1.0"
edition = "2021"
publish = false

[dependencies]
aes-gcm = "0.10"
ed25519-dalek = "2"
x25519-dalek = { version = "2", features = ["static_secrets"] }
num-complex = "0.4"

[dev-dependencies]
rand = "0.8"
