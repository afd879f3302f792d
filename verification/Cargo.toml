[package]
name = "rejection_handler"
version = "0.1.0"
edition = "2021"
publish = false

[dependencies]
mongodb = "*"
serde = "*"
thiserror = "*"
warp = "*"
