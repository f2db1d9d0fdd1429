[package]
name = "npns"
version = "0.1.0"
edition = "2021"
publish = false

[dependencies]
crossterm = "=0.28.1"
infer = "=0.16.0"
postcard = { version = "=1.1.3", features = ["alloc"] }
ratatui = "=0.29.0"
serde = { version = "=1.0.229", features = ["derive"] }
