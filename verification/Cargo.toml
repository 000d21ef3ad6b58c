[package]
name = "rainbow"
version = "0.1.0"
edition = "2021"
publish = false

[dependencies]
half = "2"
indexmap = "2"
libloading = "0.8"
libffi = "3"
