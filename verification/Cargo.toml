[package]
name = "lace"
version = "0.1.0"
edition = "2021"
publish = false

[dependencies]
byteorder = "1"
num-derive = "0.4"
num-traits = "0.2"
