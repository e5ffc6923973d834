[package]
name = "liquidity_pool"
version = "0.1.0"
edition = "2021"
publish = false

[dependencies]
borsh = { version = "1", features = ["derive"] }
num = "0.4"
solana-program = "1.18"
spl-token = { version = "4", features = ["no-entrypoint"] }
