[package]
name = "auctioneer"
version = "0.1.0"
edition = "2021"
publish = false

[dependencies]
alloy-primitives = "=0.7.7"
alloy-signer = "=0.1.4"
alloy-signer-local = "0.1"
alloy-sol-types = "=0.7.7"
anyhow = "1"
bincode = "=1.3.3"
frankenstein = { version = "=0.30.8", default-features = false, features = ["telegram-trait"] }
hex = "=0.4.3"
kinode_process_lib = "=0.8.5"
rand = "0.8"
regex = "=1.13.1"
ruint = "=1.12.3"
serde = { version = "1", features = ["derive"] }
serde_json = "1"
