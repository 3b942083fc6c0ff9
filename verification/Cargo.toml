[package]
name = "regtest_payment"
version = "0.1.0"
edition = "2021"
publish = false

[dependencies]
bitcoin = "*"
bitcoincore-rpc = "*"
serde = { version = "*", features = ["derive"] }
serde_json = "*"
