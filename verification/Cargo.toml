[package]
name = "tuitui"
version = "0.1.0"
edition = "2021"
publish = false

[dependencies]
convert_case = "=0.12.0"
crossterm = "=0.29.0"
figlet-rs = "=0.1.5"
strip-ansi-escapes = "=0.2.1"
