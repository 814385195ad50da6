[package]
name = "archer_dflow"
version = "0.1.0"
edition = "2021"
publish = false

[dependencies]
anyhow = "1"
solana-program = "=2.3.0"
