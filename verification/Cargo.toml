[package]
name = "signal_stores"
version = "0.1.0"
edition = "2021"
publish = false

[dependencies]
base64 = "*"
x25519-dalek = "*"
ed25519-dalek = "*"
