[package]
name = "cli_ide"
version = "0.1.0"
edition = "2021"
publish = false

[dependencies]
crossbeam = "0.8"
crossterm = "0.28"
ratatui = "0.29"
