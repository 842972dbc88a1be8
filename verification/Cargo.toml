[package]
name = "dotfiles"
version = "0.1.0"
edition = "2021"
publish = false

[dependencies]
clap = { version = "*", features = ["derive"] }
confy = "*"
dirs = "*"
nix = { version = "*", features = ["process", "signal"] }
serde = { version = "*", features = ["derive"] }
