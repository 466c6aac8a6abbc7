[package]
name = "json_log_viewer"
version = "0.1.0"
edition = "2021"
publish = false

[dependencies]
async-std = "1"
clap = "4"
crossterm = "0.25"
serde_json = "1"
tui = "0.19"
