[package]
name = "rtw_core"
version = "0.1.0"
edition = "2021"
publish = false

[dependencies]
color-eyre = "*"
crossterm = "0.28.1"
ratatui = "0.29.0"
rtwlib = "=0.1.5"
