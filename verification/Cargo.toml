[package]
name = "blackjack"
version = "0.1.0"
edition = "2021"
publish = false

[dependencies]
crossbeam-channel = "0.5"
rand = "0.8"
uuid = { version = "1", features = ["v4"] }
