[package]
name = "classcii"
version = "0.1.0"
edition = "2021"
publish = false

[dependencies]
rayon = "1"
anyhow = "1"
arc-swap = "1"
flume = { version = "0.11", default-features = false }
log = "0.4"
triple_buffer = "*"
image = { version = "0.25", default-features = false, features = ["png", "jpeg", "gif"] }
