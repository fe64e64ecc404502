[package]
name = "nft_inspect"
version = "0.1.0"
edition = "2021"
publish = false

[dependencies]
clap = "=2.34.0"
solana-clap-utils = "=1.14.29"
solana-program = "=1.14.29"
solana-sdk = "=1.14.29"
spl-token = "=3.5.0"
spl-token-metadata = "=0.0.1"

[dev-dependencies]
mpl-token-metadata = "1"
