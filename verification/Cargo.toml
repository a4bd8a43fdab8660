[package]
name = "sshhub"
version = "0.1.0"
edition = "2021"
publish = false

[dependencies]
anyhow = "1"
blake3 = "1"
crossterm = "*"
log = "0.4"
rand = "*"
ratatui = "*"
russh = "*"
tokio = { version = "1", features = ["full"] }
