[package]
name = "gtk_shell"
version = "0.1.0"
edition = "2021"
publish = false

[dependencies]
kurbo = "=0.13.1"
keyboard-types = "=0.8.3"
