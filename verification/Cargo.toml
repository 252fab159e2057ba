[package]
name = "cli_assert"
version = "0.1.0"
edition = "2021"
publish = false

[dependencies]
tempfile = "*"
