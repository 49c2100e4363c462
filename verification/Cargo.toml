[package]
name = "pixie_driver"
version = "0.1.0"
edition = "2021"
publish = false

[dependencies]
artnet_protocol = "*"
nix = "0.23"
rs_ws281x = "*"
