[package]
name = "circle_game"
version = "0.1.0"
edition = "2021"
publish = false

[dependencies]
rand = "0.7"
emlib = "0.0.1"
