[package]
name = "altium"
version = "0.1.0"
edition = "2021"
publish = false

[dependencies]
cfb = "*"
flate2 = "*"
uuid = "*"
