[package]
name = "token-bridge-relayer"
version = "0.1.0"
edition = "2021"
publish = false

[dependencies]
anchor-lang = "0.30.1"
anchor-spl = "0.30.1"
wormhole-anchor-sdk = { version = "0.30.1-alpha.1", features = ["token-bridge"] }
