[package]
name = "ws1in5"
version = "0.1.0"
edition = "2021"
publish = false

[dependencies]
rppal = "0.14"
image = "0.24"
imageproc = "0.23"
rusttype = "0.9"
