[package]
name = "anker"
version = "0.1.0"
edition = "2021"

[dependencies]
borsh = "~0.9"
solana-program = "~1.9"
spl-token = { version = "~3.3", features = ["no-entrypoint"] }
