[package]
name = "body_consume"
version = "0.1.0"
edition = "2021"
publish = false

[dependencies]
mime = "0.3"
url = "2"
