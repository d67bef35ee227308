[package]
name = "sendcore"
version = "0.1.0"
edition = "2021"
publish = false

[dependencies]
flume = "=0.12.0"
socket2 = { version = "=0.6.5", features = ["all"] }
io-uring = "=0.7.15"
libc = "=0.2.190"
