[package]
name = "liquidity_curve"
version = "0.1.0"
edition = "2021"
publish = false

[dependencies]
spl-math = "*"
