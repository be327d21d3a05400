[package]
name = "marketplace"
version = "0.1.0"
edition = "2021"
publish = false

[dependencies]
candid = "=0.7.18"
num-bigint = "=0.4.8"
ic-kit = "=0.4.8"
cap-sdk = "=0.2.4"
serde = "1"
