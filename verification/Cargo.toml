[package]
name = "kyc_mir"
version = "0.1.0"
edition = "2021"
publish = false

[dependencies]
