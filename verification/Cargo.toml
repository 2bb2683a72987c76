[package]
name = "dedend"
version = "0.1.0"
edition = "2021"
publish = false

[dependencies]
batbox-la = "=0.16.0"
