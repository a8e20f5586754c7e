[package]
name = "blobstore"
version = "0.1.0"
edition = "2021"
publish = false

[dependencies]
anyhow = "*"
bytes = "*"
rust-s3 = "*"
tokio = { version = "*", features = ["rt-multi-thread", "time", "macros"] }
