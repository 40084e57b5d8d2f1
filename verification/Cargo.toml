[package]
name = "sen5x"
version = "0.1.0"
edition = "2021"
publish = false

[dependencies]
sensirion-i2c = "*"
embedded-hal-async = "1"
