[package]
name = "youtube_tui"
version = "0.1.0"
edition = "2021"
publish = false

[dependencies]
tui-additions = "=0.4.4"
ratatui = "=0.30.2"
crossterm = "=0.29.0"
typemap = "=0.3.3"
