[package]
name = "spot_surf"
version = "0.1.0"
edition = "2021"
publish = false

[dependencies]
solana-program = "=5.1.0"
solana-system-interface = { version = "=3.3.0", features = ["bincode"] }
spl-associated-token-account = { version = "=8.0.0", features = ["no-entrypoint"] }
spl-token = { version = "=9.0.0", features = ["no-entrypoint"] }
thiserror = "=2.0.21"

[dev-dependencies]
borsh = "=1.8.1"
