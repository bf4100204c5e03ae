[package]
name = "swatches"
version = "0.1.0"
edition = "2021"
publish = false

[dependencies]
cli-clipboard = "*"
color = "*"
ratatui = "*"
