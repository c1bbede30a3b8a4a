[package]
name = "trade_bot"
version = "0.1.0"
edition = "2021"
publish = false

[dependencies]
solana-program = "1"
spl-token = { version = "3", features = ["no-entrypoint"] }
serum_dex = "0.5"
borsh = "0.10"
thiserror = "1"
