[package]
name = "unifetch"
version = "0.1.0"
edition = "2021"
publish = false

[dependencies]
sysinfo = "*"
nvml-wrapper = "*"
colored = "*"
clap = { version = "*", features = ["derive"] }
