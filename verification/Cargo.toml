[package]
name = "ncmp-rust"
version = "0.1.0"
edition = "2021"
publish = false

[dependencies]
clap = "=2.34.0"
crossterm = "=0.25.0"
mpd = "=0.1.0"
tui = "=0.19.0"
