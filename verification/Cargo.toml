[package]
name = "flight_mesh"
version = "0.1.0"
edition = "2021"
publish = false

[dependencies]
blake3 = "1"
chacha20poly1305 = "0.10"
ed25519-dalek = { version = "2", features = ["rand_core"] }
rand_chacha = "0.3"
rand_core = "0.6"
x25519-dalek = { version = "2", features = ["static_secrets"] }
