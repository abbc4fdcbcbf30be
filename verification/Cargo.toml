[package]
name = "cthulhu_bot"
version = "0.1.0"
edition = "2021"
publish = false

[dependencies]
d20 = "*"
rand = "0.8"
