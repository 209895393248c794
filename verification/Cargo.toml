[package]
name = "p2p_escrow"
version = "0.1.2"
edition = "2021"
publish = false

[dependencies]
anchor-lang = "=0.29.0"
anchor-spl = { version = "=0.29.0", default-features = false, features = ["token", "token_2022"] }
