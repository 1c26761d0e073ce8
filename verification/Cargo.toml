[package]
name = "zfs-nixos-setup"
version = "0.1.0"
edition = "2021"
publish = false

[dependencies]
anyhow = "1"
clap = { version = "4", features = ["derive"] }
env_logger = "0.11"
log = "0.4"
uuid = { version = "1", features = ["v4"] }
whoami = "1"
