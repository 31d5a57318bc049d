[package]
name = "ckb_bridge"
version = "0.1.0"
edition = "2021"
publish = false

[dependencies]
ckb-index = "=1.0.0"
ckb-sdk = "=1.0.0"
ckb-types = "0.103"
clap = "=3.2.25"
