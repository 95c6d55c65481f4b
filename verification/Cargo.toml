[package]
name = "chessers"
version = "0.1.0"
edition = "2021"
publish = false

[dependencies]
chess = "3.2"
rand = "0.8"
candle-core = "*"
candle-nn = "*"
chrono = "0.4"
csv = "1"
clap = { version = "4", features = ["derive"] }
