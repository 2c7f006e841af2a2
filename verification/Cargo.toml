[package]
name = "webcalc"
version = "0.1.0"
edition = "2021"
publish = false

[dependencies]
hyper = "0.12"
serde_json = "1"
