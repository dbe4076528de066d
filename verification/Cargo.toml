[package]
name = "cardinal_payment_manager"
version = "0.1.0"
edition = "2021"
publish = false

[dependencies]
solana-program = "1"
mpl-token-metadata = "3"
