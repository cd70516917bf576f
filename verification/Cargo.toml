[package]
name = "dke_sim"
version = "0.1.0"
edition = "2021"
publish = false

[dependencies]
ndarray = "*"
libm = "*"
csv = "*"
rust-ini = "*"
