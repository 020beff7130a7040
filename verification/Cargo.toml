[package]
name = "buas"
version = "0.1.0"
edition = "2021"
publish = false

[dependencies]
getrandom = "=0.4.3"
uuid = "=1.29.0"
