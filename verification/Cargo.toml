[package]
name = "scoutchain"
version = "0.1.0"
edition = "2021"
publish = false

[dependencies]
soroban-sdk = "27"

[dev-dependencies]
soroban-sdk = { version = "27", features = ["testutils"] }
