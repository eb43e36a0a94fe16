[package]
name = "fuego_crypto"
version = "0.1.0"
edition = "2021"
publish = false

[dependencies]
bip39 = "2"
bs58 = "0.5"
ed25519-dalek = "2"
rand = "0.8"
sha2 = "0.10"
zeroize = "1"
