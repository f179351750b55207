[package]
name = "procview"
version = "0.1.0"
edition = "2021"
publish = false

[dependencies]
sysinfo = "0.30"
ratatui = "0.26"
crossterm = "0.27"
