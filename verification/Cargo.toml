[package]
name = "claimable_yield"
version = "0.1.0"
edition = "2021"
publish = false

[dependencies]
bytemuck = { version = "=1.25.2", features = ["derive"] }
num_enum = "=0.7.6"
serde = { version = "=1.0.229", features = ["derive"] }
solana-account-info = "=3.1.1"
solana-instruction = "=4.0.0"
solana-msg = "=3.1.0"
solana-program-error = "=3.0.1"
solana-pubkey = "=4.4.0"
spl-pod = { version = "=0.7.4", features = ["serde-traits"] }
