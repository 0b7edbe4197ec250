[package]
name = "time_cell"
version = "0.1.0"
edition = "2021"
publish = false

[dependencies]
ckb-hash = { version = "*", default-features = false, features = ["ckb-contract"] }
ckb-std = "*"
molecule = "*"
