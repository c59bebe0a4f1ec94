[package]
name = "lz4tool"
version = "0.1.0"
edition = "2021"
publish = false

[dependencies]
lz4 = "*"
clap = "2"
