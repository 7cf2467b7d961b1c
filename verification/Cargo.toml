[package]
name = "pty_notify"
version = "0.1.0"
edition = "2021"
publish = false

[dependencies]
notify = "4"
notify-rust = "4"
users = "0.11"
