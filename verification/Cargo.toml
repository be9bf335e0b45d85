[package]
name = "anchor"
version = "0.1.0"
edition = "2021"
publish = false

[dependencies]
lmdb-rs = "*"
rustler = "*"
