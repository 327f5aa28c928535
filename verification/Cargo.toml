[package]
name = "rosen-bridge"
version = "0.1.0"
edition = "2021"
publish = false

[dependencies]
arrayref = "0.3"
borsh = "1"
num-derive = "0.4"
num-traits = "0.2"
solana-program = "1.18"
spl-token = { version = "4.0", features = ["no-entrypoint"] }
thiserror = "1"
