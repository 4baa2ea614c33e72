[package]
name = "dashboard"
version = "0.1.0"
edition = "2021"
publish = false

[dependencies]
psutil = { version = "*", default-features = false, features = ["cpu", "memory"] }
ratatui = "*"
serde_json = "*"
size = "*"
ureq = { version = "*", features = ["json"] }
