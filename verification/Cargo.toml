[package]
name = "solana_nft_marketplace"
version = "0.1.0"
edition = "2021"
publish = false

[dependencies]
anchor-lang = "=0.31.2"
anchor-spl = { version = "0.31", default-features = false, features = ["token", "associated_token"] }
mpl-core = { version = "=0.12.1", default-features = false, features = ["anchor"] }
