[package]
name = "biblfs"
version = "0.1.0"
edition = "2021"
publish = false

[dependencies]
time = "=0.2.27"
uuid = { version = "=0.8.2", features = ["v4", "v5"] }
fuser = { version = "=0.11.1", default-features = false }
rusqlite = { version = "=0.29.0", features = ["blob", "bundled"] }
clap = "=2.34.0"
crossbeam-channel = "=0.5.17"
signal-hook = "=0.3.18"
libc = "=0.2.191"
