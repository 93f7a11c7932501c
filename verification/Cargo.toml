[package]
name = "ipfs_effector"
version = "0.1.0"
edition = "2021"
publish = false

[dependencies]
eyre = "0.6"
log = "0.4"
marine-rs-sdk = "*"
ipfs-effector-types = "*"
