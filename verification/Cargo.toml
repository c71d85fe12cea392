[package]
name = "chess_search"
version = "0.1.0"
edition = "2021"
publish = false

[dependencies]
shakmaty = "=0.29.4"
crossbeam-channel = "=0.5.17"
