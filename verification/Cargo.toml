[package]
name = "clockpay"
version = "0.1.0"
edition = "2021"
publish = false

[dependencies]
anchor-lang = "0.26"
anchor-spl = "0.26"
borsh = "0.9"
clockwork-sdk = "1.4"
solana-program = "1.14"
spl-associated-token-account = "1.1"
spl-token = "3.5"
thiserror = "1"
