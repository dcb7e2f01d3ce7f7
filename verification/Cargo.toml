[package]
name = "fluent-json"
version = "0.1.0"
edition = "2021"
publish = false

[dependencies]
fluent = "=0.0.1"
getopts = "=0.2.24"
serde_json = "=1.0.154"
