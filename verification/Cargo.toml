[package]
name = "term_synth"
version = "0.1.0"
edition = "2021"
publish = false

[dependencies]
cpal = "0.17"
crossterm = "=0.29.0"
midir = "=0.11.1"
ratatui = "=0.30.2"
