[package]
name = "spp_oracle"
version = "0.1.0"
edition = "2021"
publish = false

[dependencies]
stylus-sdk = { version = "=0.6.1", default-features = false }
mini-alloc = "=0.6.1"
alloy-primitives = { version = "=0.7.6", default-features = false, features = ["tiny-keccak"] }
alloy-sol-types = { version = "=0.7.6", default-features = false }
alloy-sol-macro = "=0.7.6"
alloy-sol-macro-expander = "=0.7.6"
alloy-sol-macro-input = "=0.7.6"
syn-solidity = "=0.7.6"
ruint = { version = "=1.12.3", default-features = false }
