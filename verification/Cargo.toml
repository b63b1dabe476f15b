[package]
name = "npd"
version = "0.1.0"
edition = "2021"
publish = false

[dependencies]
anyhow = "=1.0.104"
clap = { version = "=4.6.7", features = ["derive"] }
dirs = "=7.0.0"
inotify = { version = "=0.11.5", default-features = false }
zbus = "5"
