[package]
name = "proof_convert"
version = "0.1.0"
edition = "2021"
publish = false

[dependencies]
ibc-core-commitment-types = "*"
prost = "0.13"
tendermint = "*"
