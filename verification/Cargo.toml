[package]
name = "ore_miner"
version = "0.1.0"
edition = "2021"
publish = false

[dependencies]
ore = "=0.0.1"
solana-program = "=1.18.26"
solana-sdk = "=1.18.26"
sha3 = "0.10"
base64 = "=0.21.7"
bincode = "=1.3.3"
tokio = { version = "1", default-features = false, features = ["rt-multi-thread", "macros", "sync", "time", "fs", "net"] }
clap = { version = "4", default-features = false, features = ["std", "help", "usage", "derive"] }
rand = "0.8"
