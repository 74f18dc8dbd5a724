[package]
name = "encunzip"
version = "0.1.0"
edition = "2021"
publish = false

[dependencies]
zip = "*"
encoding_rs = "*"

[dev-dependencies]
crc32fast = "*"
