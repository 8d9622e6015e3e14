[package]
name = "deposit"
version = "0.1.0"
edition = "2021"
publish = false

[dependencies]
anchor-lang = "=0.28.0"
anchor-spl = { version = "=0.28.0", features = ["dex", "metadata", "token", "associated_token"] }
mpl-token-metadata = "=1.13.2"
spl-token = "=4.0.0"
spl-memo = "=4.0.0"
