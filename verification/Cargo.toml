[package]
name = "sidecar_runner"
version = "0.1.0"
edition = "2021"
publish = false

[dependencies]
serde_json = "*"
