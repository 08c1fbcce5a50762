[package]
name = "linux_practice"
version = "0.1.0"
edition = "2021"
publish = false

[dependencies]
nix = { version = "*", features = ["process", "signal", "mman", "time", "fs"] }
time = "0.1"
