[package]
name = "icmp_tun"
version = "0.1.0"
edition = "2021"
publish = false

[dependencies]
nfq = "*"
