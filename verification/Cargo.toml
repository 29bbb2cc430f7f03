[package]
name = "miden"
version = "0.1.0"
edition = "2021"
publish = false

[dependencies]
miden-crypto = { version = "=0.1.4", default-features = false }
winter-utils = { version = "=0.5.1", default-features = false }
winter-air = { version = "0.5", default-features = false }
hex = "=0.4.3"
serde = "1"
serde_derive = "1"
serde_json = "1"
