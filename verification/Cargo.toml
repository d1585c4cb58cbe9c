[package]
name = "hdwallet"
version = "0.1.0"
edition = "2021"
publish = false

[dependencies]
cryptoxide = "*"
ed25519-bip32 = "*"
