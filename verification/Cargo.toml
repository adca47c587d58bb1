[package]
name = "metalax-nft"
version = "0.1.0"
edition = "2021"
publish = false

[dependencies]
anchor-lang = { version = "=0.29.0", features = ["init-if-needed"] }
anchor-spl = { version = "=0.29.0", default-features = false, features = ["token", "token_2022", "associated_token", "mint"] }
