[package]
name = "solana_cli"
version = "0.1.0"
edition = "2021"
publish = false

[dependencies]
chrono = { version = "0.4", features = ["serde"] }
clap = "2.33"
dirs = "2"
log = "0.4"
num-traits = "0.2"
pretty-hex = "0.1"
serde_json = "1"
solana-budget-program = "~1.0"
solana-clap-utils = "~1.0"
solana-client = "~1.0"
solana-faucet = "~1.0"
solana-net-utils = "~1.0"
solana-remote-wallet = "~1.0"
solana-sdk = "~1.0"
solana-stake-program = "~1.0"
solana-storage-program = "~1.0"
solana-vote-program = "~1.0"
url = "2"
