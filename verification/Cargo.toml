[package]
name = "eth_block_meta"
version = "0.1.0"
edition = "2021"
publish = false

[dependencies]
hex = "*"
substreams = "*"
substreams-ethereum = "*"
substreams-database-change = "*"
