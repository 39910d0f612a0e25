[package]
name = "early_kernel"
version = "0.1.0"
edition = "2021"
publish = false

[dependencies]
aarch64-cpu = "9"
tock-registers = { version = "0.8", default-features = false }
