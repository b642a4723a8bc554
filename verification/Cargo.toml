[package]
name = "nft_market"
version = "0.1.0"
edition = "2021"
publish = false

[dependencies]
nois = "=2.0.0"
cosmwasm-std = "=2.3.5"
cw-storage-plus = "=2.0.0"
cw20 = "=2.0.0"
cw721 = "=0.22.0"
serde = { version = "*", features = ["derive"] }
serde_json = "*"
