[package]
name = "subenv"
version = "0.1.0"
edition = "2021"
publish = false

[dependencies]
tempfile = "*"
os_pipe = "*"
clap = "*"
scopeguard = "*"
