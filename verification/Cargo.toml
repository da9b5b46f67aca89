[package]
name = "pinger"
version = "0.1.0"
edition = "2021"
publish = false

[dependencies]
anyhow = "1"
os_info = { version = "3", default-features = false }
regex = "1"
thiserror = "1"
