[package]
name = "bitcoin_p2p"
version = "0.1.0"
edition = "2021"
publish = false

[dependencies]
bitcoin_hashes = "*"
