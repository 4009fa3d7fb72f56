[package]
name = "debugger"
version = "0.1.0"
edition = "2021"
publish = false

[dependencies]
anyhow = "1"
nix = { version = "0.26", default-features = false, features = ["ptrace", "process", "signal"] }
rustyline = "10"
