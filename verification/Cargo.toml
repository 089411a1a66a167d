[package]
name = "carbon"
version = "0.1.0"
edition = "2021"
publish = false

[dependencies]
solana-program = "=1.14.29"
spl-token = { version = "=3.5.0", features = ["no-entrypoint"], default-features = false }
spl-associated-token-account = { version = "=1.1.3", features = ["no-entrypoint"], default-features = false }
mpl-token-metadata = { version = "=1.13.1", features = ["no-entrypoint"], default-features = false }
mpl-token-auth-rules = { version = "=1.3.0", features = ["no-entrypoint"], default-features = false }
