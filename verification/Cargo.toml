[package]
name = "guestrand"
version = "0.1.0"
edition = "2021"
publish = false

[dependencies]
rand = "0.8"
libc = "0.2"
log = "0.4"
nix = "0.26"
