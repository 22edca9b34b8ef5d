[package]
name = "up-wire-omgidl"
version = "0.1.0"
edition = "2021"
publish = false

[dependencies]
bytes = "1"
dust_dds = "0.15"
up-rust = "*"
