[package]
name = "dictcc_cli"
version = "0.1.0"
edition = "2021"
publish = false

[dependencies]
sqlite = "*"
getopts = "*"
