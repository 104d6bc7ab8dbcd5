[package]
name = "preimage_oracle"
version = "0.1.0"
edition = "2021"
publish = false

[dependencies]
alloy-primitives = "*"
thiserror = "*"
libp2p = { version = "*", default-features = false, features = ["gossipsub", "ping", "macros"] }
