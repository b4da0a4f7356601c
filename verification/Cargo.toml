[package]
name = "npm_scripts"
version = "0.1.0"
edition = "2021"
publish = false

[dependencies]
serde_json = "*"
