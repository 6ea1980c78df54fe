[package]
name = "ckb_tx_generator"
version = "0.1.0"
edition = "2021"
publish = false

[dependencies]
anyhow = "1"
ckb-jsonrpc-types = "=1.2.1"
ckb-sdk = { version = "=5.1.0", default-features = false }
ckb-std = "=1.1.0"
ckb-types = "=1.1.4"
ethereum-types = "=0.14.1"
hex = "=0.4.3"
log = "0.4"
secp256k1 = "=0.30.0"
serde_json = "1"
shellexpand = "=3.1.2"
web3 = { version = "=0.19.0", default-features = false }
