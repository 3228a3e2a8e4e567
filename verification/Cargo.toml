[package]
name = "brick"
version = "0.1.0"
edition = "2021"
publish = false

[dependencies]
solana-program = "*"

[dev-dependencies]
spl-token-2022 = "*"
