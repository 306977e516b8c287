[package]
name = "secp256k1"
version = "0.1.0"
edition = "2021"
publish = false

[dependencies]
rust-crypto = "=0.2.36"
rand = "=0.3.23"
libc = "=0.2.191"
rustc-serialize = "=0.3.25"

[dev-dependencies]
libsecp256k1 = "0.7"
