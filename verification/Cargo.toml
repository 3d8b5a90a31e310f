[package]
name = "nix_apprun"
version = "0.1.0"
edition = "2021"
publish = false

[dependencies]
nix = { version = "0.29", features = ["mount", "sched", "user", "process", "fs"] }
clap = { version = "4", features = ["derive"] }
log = "0.4"
env_logger = "0.11"
