[package]
name = "deno_host"
version = "0.1.0"
edition = "2021"
publish = false

[dependencies]
hyper = { version = "=1.12.0", features = ["client", "http1"] }
log = "=0.4.34"
nix = "0.21"
url = "=2.5.8"
