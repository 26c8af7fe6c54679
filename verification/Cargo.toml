[package]
name = "dapps_staking_mock"
version = "0.1.0"
edition = "2021"
publish = false

[dependencies]
sp-core = "=2.0.1"
sp-io = "=2.0.1"
sp-runtime = "=2.0.1"
sp-staking = "=2.0.1"
substrate-bip39 = "=0.4.2"
