[package]
name = "evm_loader"
version = "0.1.0"
edition = "2021"
publish = false

[dependencies]
arrayref = "0.3"
bincode = "1"
clap = "2"
ethnum = "1"
goblin = "0.6"
hex = "0.4"
log = "0.4"
rlp = "0.5"
scroll = "0.11"
serde = { version = "1", features = ["derive"] }
serde_json = "1"
solana-program = "~1.14"
thiserror = "1"
