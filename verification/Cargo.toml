[package]
name = "duelpvp"
version = "0.1.0"
edition = "2021"
publish = false

[dependencies]
anchor-lang = "=0.29.0"
orao-solana-vrf = { version = "=0.4.0", default-features = false, features = ["cpi"] }
solana-security-txt = "=1.1.3"
