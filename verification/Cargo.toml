[package]
name = "token_vault"
version = "0.1.0"
edition = "2021"
publish = false

[dependencies]
spl-token = "*"
solana-program = "*"

[dev-dependencies]
borsh = "*"
