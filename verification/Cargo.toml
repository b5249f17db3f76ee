[package]
name = "rsbwapi"
version = "0.3.0"
edition = "2021"
publish = false

[dependencies]
memchr = "2"
ahash = "0.8"
