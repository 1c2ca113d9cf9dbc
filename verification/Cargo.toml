[package]
name = "volctl"
version = "0.1.0"
edition = "2021"
publish = false

[dependencies]
x11rb = "=0.14.0"
async-channel = "=2.5.0"
ksni = { version = "=0.3.6", features = ["blocking"] }
