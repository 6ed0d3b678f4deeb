[package]
name = "tmmx"
version = "0.1.0"
edition = "2021"
publish = false

[dependencies]
crossterm = "0.28"
ratatui = "0.29"
color-eyre = "0.6"
