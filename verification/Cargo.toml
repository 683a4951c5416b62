[package]
name = "treasury"
version = "0.1.0"
edition = "2021"
publish = false

[dependencies]
cosmos-sdk-proto = { version = "=0.19.0", default-features = false }
cosmwasm-schema = "=1.5.11"
cosmwasm-std = { version = "=1.5.11", features = ["stargate"] }
cw2 = "=1.1.2"
cw20 = "=1.1.2"
cw20-base = { version = "=1.1.2", features = ["library"] }
cw-multi-test = "=0.20.1"
cw-storage-plus = "=1.2.0"
oraiswap = "=1.0.1"
protobuf = "=3.2.0"
thiserror = "=1.0.69"
