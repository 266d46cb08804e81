[package]
name = "sysutil"
version = "0.1.0"
edition = "2021"
publish = false

[dependencies]
lazy_static = "1"
libc = "0.2"
num_cpus = "1"
