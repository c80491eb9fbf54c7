[package]
name = "osstat"
version = "0.1.0"
edition = "2021"
publish = false

[dependencies]
sysinfo = { version = "0.32", default-features = false, features = ["system"] }
