[package]
name = "buyer_swap"
version = "0.1.0"
edition = "2021"
publish = false

[dependencies]
grin_core = "=5.5.2"

[dev-dependencies]
grin_keychain = "=5.5.2"
