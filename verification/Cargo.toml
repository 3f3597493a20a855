[package]
name = "niri_settings"
version = "0.1.0"
edition = "2021"
publish = false

[dependencies]
anyhow = "1"
crossterm = "0.28"
dirs = "5"
kdl = { version = "6", features = ["v1"] }
niri-ipc = "*"
ratatui = "0.29"
