[package]
name = "game_session"
version = "0.1.0"
edition = "2021"
publish = false

[dependencies]
async-std = { version = "1", features = ["attributes"] }
async-trait = "0.1"
async-tungstenite = { version = "*", features = ["async-std-runtime"] }
eyre = "0.6"
futures = "0.3"
libc = "0.2"
log = "0.4"
parking_lot = "0.12"
rand = "0.8"
simple_logger = "*"
soketto = "0.7"
tide = "0.16"
