[package]
name = "econf"
version = "0.3.0"
edition = "2021"
publish = false

[dependencies]
humantime = "2"
log = "0.4"
serde = "1"
serde_yaml = "0.9"
