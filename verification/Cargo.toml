[package]
name = "rand_jitter_kernel"
version = "0.1.0"
edition = "2021"
publish = false

[dependencies]
libc = "0.2"
rand_core = "0.9"
