[package]
name = "token-vesting"
version = "0.1.0"
edition = "2021"
publish = false

[dependencies]
num-derive = "=0.5.1"
num-traits = "=0.2.19"
solana-program = "=5.1.0"
spl-token = { version = "=9.0.0", features = ["no-entrypoint"] }
thiserror = "=2.0.21"

[dev-dependencies]
borsh = "=1.8.1"
