[package]
name = "emacs_like"
version = "0.1.0"
edition = "2021"
publish = false

[dependencies]
crossterm = "0.28"
ratatui = "0.29"
syntect = { version = "5", default-features = false, features = ["default-fancy"] }
