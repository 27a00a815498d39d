[package]
name = "ain_evm"
version = "0.1.0"
edition = "2021"
publish = false

[dependencies]
anyhow = "1"
ethereum = "0.14"
ethereum-types = "0.14"
hex = "0.4"
log = "0.4"
primitive-types = "0.12"
