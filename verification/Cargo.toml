[package]
name = "zkrange"
version = "0.1.0"
edition = "2021"
publish = false

[dependencies]
bulletproofs = "4"
curve25519-dalek-ng = "4"
merlin = "3"
rand = "0.8"
