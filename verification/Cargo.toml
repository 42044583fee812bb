[package]
name = "keyboard_sender"
version = "0.1.0"
edition = "2021"
publish = false

[dependencies]
keyboard-codes = "*"
