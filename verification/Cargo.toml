[package]
name = "overlay"
version = "0.1.0"
edition = "2021"
publish = false

[dependencies]
anyhow = "=1.0.104"
termwiz = "=0.23.3"
