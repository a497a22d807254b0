[package]
name = "examine_memory"
version = "0.1.0"
edition = "2021"
publish = false

[dependencies]
egui = "0.27"
nix = { version = "0.28", features = ["process", "uio"] }
