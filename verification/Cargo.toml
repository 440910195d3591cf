[package]
name = "rcore_labs"
version = "0.1.0"
edition = "2021"
publish = false

[dependencies]
riscv = "*"
libc = "0.2"
nix = { version = "*", features = ["process", "signal"] }
