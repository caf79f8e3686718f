[package]
name = "vft_contracts"
version = "0.1.0"
edition = "2021"
publish = false

[dependencies]
sails-rs = "*"
gstd = "*"
