[package]
name = "netlink_wi"
version = "0.1.0"
edition = "2021"
publish = false

[dependencies]
neli = { version = "=0.7.4", features = ["async"] }
nix = "=0.31.3"
