[package]
name = "plug_deploy"
version = "0.1.0"
edition = "2021"
publish = false

[dependencies]
base64 = "*"
