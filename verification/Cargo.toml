[package]
name = "ifaddrs_core"
version = "0.1.0"
edition = "2021"
publish = false

[dependencies]
libc = "0.2"
get_if_addrs-sys = "0.1"
