[package]
name = "btc_anchoring"
version = "0.1.0"
edition = "2021"
publish = false

[dependencies]
exonum = "0.9"
serde_json = "1"
exonum_bitcoinrpc = "*"
serde = { version = "1", features = ["derive"] }
