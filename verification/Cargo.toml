[package]
name = "tagging"
version = "0.1.0"
edition = "2021"
publish = false

[dependencies]
pdf-writer = "*"
smallvec = "1"
