[package]
name = "evm_core"
version = "0.1.0"
edition = "2021"
publish = false

[dependencies]
alloy-primitives = { version = "=0.8.26", default-features = false, features = ["std", "rlp"] }
hex = "=0.4.3"
thiserror = "=1.0.69"
