[package]
name = "cw721"
version = "0.1.0"
edition = "2021"
publish = false

[dependencies]
cosmwasm-std = "*"
serde = "*"

[dev-dependencies]
serde_json = "*"
