[package]
name = "loti_tui"
version = "0.1.0"
edition = "2021"
publish = false

[dependencies]
anyhow = "=1.0.104"
jiff = "=0.2.39"
ratatui = "=0.29.0"
ratatui-markdown = "=0.3.6"
