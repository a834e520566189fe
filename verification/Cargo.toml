[package]
name = "threshold_trader"
version = "0.1.0"
edition = "2021"
publish = false

[dependencies]
rust_decimal = "1"
binance = "*"
anyhow = "1"
log = "0.4"
pretty_env_logger = "*"
