[package]
name = "zk_poker"
version = "0.1.0"
edition = "2021"
publish = false

[dependencies]
anchor-lang = "=1.2.1"
anchor-spl = "=1.2.1"
solana-keccak-hasher = { version = "=3.1.0", features = ["sha3"] }
