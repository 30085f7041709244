[package]
name = "shell_core"
version = "0.1.0"
edition = "2021"
publish = false

[dependencies]
nix = { version = "*", features = ["signal", "process"] }
lazy_static = "*"
rustyline = { version = "*", features = ["derive"] }
