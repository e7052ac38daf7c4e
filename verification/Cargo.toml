[package]
name = "cache-size"
version = "0.7.0"
edition = "2021"
publish = false

[dependencies]
raw-cpuid = "11"
