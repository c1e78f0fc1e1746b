[package]
name = "bolt12_payment"
version = "0.1.0"
edition = "2021"
publish = false

[dependencies]
lightning = "*"
lightning-types = "*"
bitcoin = "0.32"
