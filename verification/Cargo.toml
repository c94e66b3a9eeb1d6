[package]
name = "aeonflux"
version = "0.1.0"
edition = "2021"
publish = false

[dependencies]
curve25519-dalek-ng = "=3.0.3"
rand = "=0.7.3"
rand_core = "=0.5.1"
sha2 = "0.9"
zkp = "=0.8.0"
