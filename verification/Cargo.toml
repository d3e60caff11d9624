[package]
name = "batch0_sale"
version = "0.1.0"
edition = "2021"
publish = false

[dependencies]
solana-program = "=2.3.0"
spl-token-2022 = { version = "=6.0.0", features = ["no-entrypoint"] }
