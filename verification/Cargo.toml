[package]
name = "timed_tmux_mode"
version = "0.1.0"
edition = "2021"
publish = false

[dependencies]
zellij-tile = "*"
