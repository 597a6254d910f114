[package]
name = "cpal_toy"
version = "0.1.0"
edition = "2021"
publish = false

[dependencies]
anyhow = "1"
cpal = "0.16"
crossterm = "0.28"
lockfree = "0.5"
ratatui = "0.29"
