[package]
name = "chisel"
version = "0.1.0"
edition = "2021"
publish = false

[dependencies]
multimap = "*"
serde_json = "*"
yansi = "*"
ratatui = "*"
crossterm = "*"
ansi-to-tui = "*"
