[package]
name = "contract_wallet"
version = "0.1.0"
edition = "2021"
publish = false

[dependencies]
tiny-keccak = { version = "=2.0.2", features = ["keccak"] }
borsh = { version = "=1.8.1", features = ["derive"] }
near-sdk = { version = "=5.29.1", features = ["non-contract-usage"] }
