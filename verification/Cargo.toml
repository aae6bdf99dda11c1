[package]
name = "pot_ledger"
version = "0.1.0"
edition = "2021"
publish = false

[dependencies]
cosmwasm-std = "0.16"
cw2 = "0.9"
cw20 = "0.9"
cw-storage-plus = "0.9"
schemars = "0.8"
serde = { version = "1.0", default-features = false, features = ["derive"] }
