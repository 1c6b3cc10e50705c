[package]
name = "owo"
version = "0.1.0"
edition = "2021"
publish = false

[dependencies]
byteorder = "1"
fastrand = "2"
telnet = "0.2"
