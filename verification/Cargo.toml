[package]
name = "device"
version = "0.1.0"
edition = "2021"
publish = false

[dependencies]
blurmock = "0.1"
blurz = "0.2"
blurdroid = "0.1"
blurmac = "*"
