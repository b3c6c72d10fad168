[package]
name = "ts480"
version = "0.1.0"
edition = "2021"
publish = false

[dependencies]
serial = "*"
