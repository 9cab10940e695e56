[package]
name = "dualpane"
version = "0.1.0"
edition = "2021"
publish = false

[dependencies]
chrono = "0.4"
crossterm = "0.25"
dirs = "4"
toml = "0.5"
tui = "0.19"
users = "0.11"
