[package]
name = "xdp"
version = "0.1.0"
edition = "2021"
publish = false

[dependencies]
failure = "0.1"
libc = "0.2"
nix = { version = "*", features = ["net"] }
structopt = "0.3"
