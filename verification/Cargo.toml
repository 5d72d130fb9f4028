[package]
name = "tree-cleaner"
version = "0.2.0"
edition = "2021"
publish = false

[dependencies]
anyhow = "1"
log = "0.4"
parking_lot = "0.12"
ratatui = "0.29"
unicode-width = "0.2"
