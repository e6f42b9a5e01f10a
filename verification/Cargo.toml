[package]
name = "netnswrap"
version = "0.1.0"
edition = "2021"
publish = false

[dependencies]
clap = "*"
nix = { version = "*", features = ["sched", "fs", "process"] }
