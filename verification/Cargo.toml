[package]
name = "aquifer"
version = "0.1.0"
edition = "2021"
publish = false

[dependencies]
crc32fast = "1"
libc = "0.2"
tokio-uring = "0.5"
