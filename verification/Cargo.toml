[package]
name = "amd_smi"
version = "0.1.0"
edition = "2021"
publish = false

[dependencies]
libloading = "*"
