[package]
name = "nft_mint"
version = "0.1.0"
edition = "2021"
publish = false

[dependencies]
solana-sdk = "=1.14.29"
spl-token = "=3.5.0"
spl-associated-token-account = ">=1.0.5, <2"
mpl-token-metadata = "=1.6.5"
envy = "=0.4.2"
serde = { version = "=1.0.229", features = ["derive"] }
url = "=2.5.8"
