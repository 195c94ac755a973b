[package]
name = "sctrace"
version = "0.1.0"
edition = "2021"
publish = false

[dependencies]
nix = { version = "0.27", features = ["ptrace", "signal", "process"] }
chrono = "0.4"
clap = { version = "4", features = ["derive"] }
fork = "0.1"
owo-colors = "4"
ratatui = "0.26"
crossterm = "0.27"
