[package]
name = "tick_tui"
version = "0.1.0"
edition = "2021"
publish = false

[dependencies]
ratatui = "0.26"
crossterm = "0.27"
color-eyre = "0.6"
