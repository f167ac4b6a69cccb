[package]
name = "mwc_swap"
version = "0.1.0"
edition = "2021"
publish = false

[dependencies]
bitcoin = "=0.23.0"
grin_keychain = "=5.5.2"
grin_util = "=5.5.2"
hex = "=0.4.3"
rand = "=0.7.3"
ring = "=0.16.9"
serde = { version = "=1.0.229", features = ["derive"] }
serde_json = "=1.0.154"
uuid = { version = "=0.8.2", features = ["v4"] }
wagyu-ethereum = "=0.6.3"
wagyu-model = "=0.6.3"
web3 = { version = "=0.19.0", default-features = false }
