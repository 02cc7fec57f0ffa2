[package]
name = "ido_tier"
version = "0.1.0"
edition = "2021"
publish = false

[dependencies]
cosmwasm-std = { version = "1", features = ["staking"] }
cw-storage-plus = "1"
cw20 = "1"
schemars = "0.8"
serde = { version = "1", features = ["derive"] }
