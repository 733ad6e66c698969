[package]
name = "stale_sweep"
version = "0.1.0"
edition = "2021"
publish = false

[dependencies]
chrono = "*"
clap = "*"
python-input = "*"
