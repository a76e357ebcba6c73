[package]
name = "betting_pools"
version = "0.1.0"
edition = "2021"
publish = false

[dependencies]
base64 = "*"
bs58 = "*"
sologger_log_context = "*"
prost = "*"
substreams-solana = "*"
