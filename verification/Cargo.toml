[package]
name = "gobang"
version = "0.1.0"
edition = "2021"
publish = false

[dependencies]
anyhow = "1"
tui = "0.19"
crossterm = "0.25"
