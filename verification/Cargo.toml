[package]
name = "sphinx"
version = "0.1.0"
edition = "2021"
publish = false

[dependencies]
base64 = "0.13"
curve25519-dalek = { version = "4", features = ["rand_core"] }
rand_core = { version = "0.6", features = ["getrandom"] }
