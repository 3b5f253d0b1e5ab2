[package]
name = "token_transfer"
version = "0.1.0"
edition = "2021"
publish = false

[dependencies]
cvlr = { version = "=0.6.1", features = ["rt"] }
cvlr-solana = "=0.5.0"
solana-program = "=2.3.0"
spl-token = "8"
