[package]
name = "image_classify"
version = "0.1.0"
edition = "2021"
publish = false

[dependencies]
image = "*"
serde_json = "*"
wasi-nn = "*"
