[package]
name = "tcp_stack"
version = "0.1.0"
edition = "2021"
publish = false

[dependencies]
etherparse = "*"
tun-tap = { version = "*", default-features = false }
