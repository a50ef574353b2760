[package]
name = "membarrier"
version = "0.1.0"
edition = "2021"
publish = false

[dependencies]
libc = "0.2"
lazy_static = "1"
cfg-if = "1"
kernel32-sys = "0.2"
