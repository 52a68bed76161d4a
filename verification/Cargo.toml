[package]
name = "debugger"
version = "0.1.0"
edition = "2021"
publish = false

[dependencies]
regex = "1"
serde_json = "1"
sysinfo = "0.31"
