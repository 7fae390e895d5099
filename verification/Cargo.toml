[package]
name = "ppcpu"
version = "0.1.0"
edition = "2021"
publish = false

[dependencies]
clap = { version = "4", features = ["derive"] }
console = "0.15"
nix = { version = "0.26", features = ["term", "fs"] }
