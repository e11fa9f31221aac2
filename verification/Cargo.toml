[package]
name = "cw_escrow"
version = "0.1.0"
edition = "2021"
publish = false

[dependencies]
cosmwasm-schema = "1.2"
cosmwasm-std = "1.2"
cw-storage-plus = "1.0"
thiserror = "1.0"
