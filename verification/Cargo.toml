[package]
name = "nftinder"
version = "0.1.0"
edition = "2021"
publish = false

[dependencies]
hex = "=0.4.3"
near-sdk = { version = "=5.29.1", features = ["legacy", "non-contract-usage"] }
near-contract-standards = "=5.29.1"
serde = "=1.0.229"
serde_json = "=1.0.151"
