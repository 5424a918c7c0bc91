[package]
name = "lzo_safe"
version = "0.1.0"
edition = "2021"
publish = false

[dependencies]
lzo1x = "=0.2.2"
rust-lzo = "*"
minilzo = "*"
