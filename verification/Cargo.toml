[package]
name = "farmer_piece_getter"
version = "0.1.0"
edition = "2021"
publish = false

[dependencies]
frame-support = "*"
frame-system = "*"
anyhow = "1"
futures = "0.3"
async-lock = "3"
async-trait = "0.1"
parking_lot = "0.12"
tracing = "0.1"
