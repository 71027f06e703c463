[package]
name = "datatest"
version = "0.1.0"
edition = "2021"
publish = false

[dependencies]
regex = "1"
walkdir = "2"
yaml-rust = "0.4"
serde_yaml = "0.9"
