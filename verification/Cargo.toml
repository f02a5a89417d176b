[package]
name = "kvlm"
version = "0.1.0"
edition = "2021"
publish = false

[dependencies]
goish = "0.20.7"
