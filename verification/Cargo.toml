[package]
name = "gfs_lite"
version = "0.1.0"
edition = "2021"
publish = false

[dependencies]
futures = "*"
tarpc = { version = "*", features = ["full"] }
tokio = { version = "*", features = ["full"] }
