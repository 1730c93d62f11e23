[package]
name = "encode_unicode"
version = "0.3.5"
edition = "2021"
publish = false

[dependencies]
ascii = "1"
