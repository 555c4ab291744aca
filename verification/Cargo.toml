[package]
name = "raffle_program"
version = "0.1.0"
edition = "2021"
publish = false

[dependencies]
solana-program = "1.18"
borsh = "1"
thiserror = "1"
