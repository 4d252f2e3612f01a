[package]
name = "messenger"
version = "0.1.0"
edition = "2021"
publish = false

[dependencies]
capnp = "*"
rustc-serialize = "0.3"
