[package]
name = "sandesh"
version = "0.1.0"
edition = "2021"
publish = false

[dependencies]
byteorder = "=1.5.0"
chacha20poly1305 = "=0.10.1"
colored = "=2.2.0"
crossterm = "=0.27.0"
rand = "=0.8.8"
x25519-dalek = { version = "=2.0.1", features = ["static_secrets"] }
