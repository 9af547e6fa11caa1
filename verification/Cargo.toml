[package]
name = "atpspy"
version = "0.1.0"
edition = "2021"
publish = false

[dependencies]
ratatui = "=0.29.0"
crossterm = "=0.28.1"
dotenvy = "=0.15.7"
