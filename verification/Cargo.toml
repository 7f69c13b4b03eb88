[package]
name = "beacon_executor"
version = "0.1.0"
edition = "2021"
publish = false

[dependencies]
beacon = "=0.1.2"
ssz = "=0.1.2"
parity-codec = { version = "=3.5.4", features = ["derive"] }
blockchain = "*"
