[package]
name = "ctp_md"
version = "0.1.0"
edition = "2021"
publish = false

[dependencies]
ctp-common = "*"
