[package]
name = "terraswap"
version = "0.1.0"
edition = "2021"
publish = false

[dependencies]
cosmwasm-std = "1.1"
cw20 = "1.0"
schemars = "0.8"
serde = { version = "1.0", features = ["derive"] }
