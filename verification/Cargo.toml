[package]
name = "vsdbg-rs"
version = "0.1.0"
edition = "2021"
publish = false

[dependencies]
windows = "0.18"
winapi = "0.2"
