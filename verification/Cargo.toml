[package]
name = "file_lock"
version = "0.1.0"
edition = "2021"
publish = false

[dependencies]
nix = { version = "=0.27.1", features = ["fs"] }
