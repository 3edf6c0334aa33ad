[package]
name = "logger_bro"
version = "0.1.0"
edition = "2021"
publish = false

[dependencies]
rand = "*"
owo-colors = "*"
unicode-width = "*"
crossterm = "*"
ratatui = "*"
