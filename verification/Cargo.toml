[package]
name = "auction"
version = "0.1.0"
edition = "2021"
publish = false

[dependencies]
solana-program = "=3.0.0"
spl-token = "=9.0.0"
num-traits = "=0.2.19"
num-derive = "=0.4.2"
thiserror = "=2.0.21"
