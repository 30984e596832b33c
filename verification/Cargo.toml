[package]
name = "eigenda_exex"
version = "0.1.0"
edition = "2021"
publish = false

[dependencies]
alloy-primitives = "=1.7.3"
alloy-sol-types = "=1.7.3"
alloy-sol-macro = "=1.7.3"
