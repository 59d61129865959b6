[package]
name = "argon1d"
version = "0.1.0"
edition = "2021"
publish = false

[dependencies]
anyhow = "*"
clap = { version = "*", features = ["derive"] }
daemonize = "*"
log = "*"
rppal = "*"
serde = { version = "*", features = ["derive"] }
serde_with = "*"
signal-hook = "*"
syslog = "*"
toml = "*"
