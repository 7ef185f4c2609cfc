[package]
name = "procwatch"
version = "0.1.0"
edition = "2021"
publish = false

[dependencies]
parking_lot = "0.12"
crossterm = "0.25"
tui = "0.19"
sysinfo = "0.29"
rand = "0.8"
