[package]
name = "synapse"
version = "0.1.0"
edition = "2021"
publish = false

[dependencies]
rand = "*"
rodio = "*"
lofty = "*"
crossterm = "*"
ratatui = "*"
