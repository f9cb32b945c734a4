[package]
name = "secret_store"
version = "0.1.0"
edition = "2021"
publish = false

[dependencies]
futures = "*"
lazy_static = "*"
vaultrs = "*"
