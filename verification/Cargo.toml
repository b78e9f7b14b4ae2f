[package]
name = "maschine"
version = "0.1.0"
edition = "2021"
publish = false

[dependencies]
hidapi = "*"
rand = "0.8"
