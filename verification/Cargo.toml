[package]
name = "vmm"
version = "0.1.0"
edition = "2021"
publish = false

[dependencies]
vm-memory = { version = "*", features = ["backend-mmap"] }
linux-loader = { version = "*", features = ["pe"] }
