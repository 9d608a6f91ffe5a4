[package]
name = "rpc_client"
version = "0.1.0"
edition = "2021"
publish = false

[dependencies]
anyhow = "1"
log = "0.4"
parking_lot = "0.12"
postage = "*"
smol = "2"
