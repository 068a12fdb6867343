[package]
name = "passthrough"
version = "0.1.0"
edition = "2021"
publish = false

[dependencies]
libc = "0.2"
vm-memory = "0.10"
