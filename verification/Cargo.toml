[package]
name = "hawk_payload"
version = "0.1.0"
edition = "2021"
publish = false

[dependencies]
ring = "*"
