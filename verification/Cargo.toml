[package]
name = "solana_programs"
version = "0.1.0"
edition = "2021"
publish = false

[dependencies]
solana-program = "2.2"
spl-token = { version = "7", features = ["no-entrypoint"] }
spl-associated-token-account = { version = "6", features = ["no-entrypoint"] }
mpl-token-metadata = "5"
borsh = "1"
thiserror = "2"
solana-system-interface = "1"
