[package]
name = "xfs_mgr"
version = "0.1.0"
edition = "2021"
publish = false

[dependencies]
libloading = "*"
