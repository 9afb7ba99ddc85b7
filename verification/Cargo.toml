[package]
name = "crc_fast"
version = "0.1.0"
edition = "2021"
publish = false

[dependencies]
libc = "0.2"

[dev-dependencies]
crc = "3"
rand = "*"
