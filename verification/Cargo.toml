[package]
name = "schnorr"
version = "0.1.0"
edition = "2021"
publish = false

[dependencies]
curve25519-dalek = "4"
rand = "0.8"
sha2 = "0.10"
