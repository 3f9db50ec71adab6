[package]
name = "nft_stages"
version = "0.1.0"
edition = "2021"
publish = false

[dependencies]
solana-program = "2"
anchor-lang = { version = "0.31", features = ["init-if-needed"] }
anchor-spl = { version = "0.31", features = ["metadata"] }
mpl-token-metadata = "5"
