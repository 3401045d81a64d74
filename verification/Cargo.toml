[package]
name = "wasi_cloud_core"
version = "0.1.0"
edition = "2021"
publish = false

[dependencies]
nkeys = "*"
anyhow = "*"
tokio = { version = "*", features = ["full"] }
async-trait = "*"
aws-config = "*"
aws-sdk-s3 = "*"
