[package]
name = "lineshell"
version = "0.1.0"
edition = "2021"
publish = false

[dependencies]
ansi-escapes = "*"
colored = "*"
crossterm = "*"
term_size = "*"
