[package]
name = "solarium"
version = "0.1.0"
edition = "2021"
publish = false

[dependencies]
num-derive = "0.3"
num-traits = "0.2"
sol-did = { version = "0.2.0", features = ["no-entrypoint"] }
solana-program = "~1.14"
thiserror = "1"

[dev-dependencies]
borsh = "0.9"
