[package]
name = "walker"
version = "0.1.0"
edition = "2021"
publish = false

[dependencies]
walkdir = "*"
rustix = { version = "*", features = ["fs"] }
unix_mode = "*"
anyhow = "*"
clap = { version = "*", features = ["derive"] }
crossterm = "0.25"
humansize = "*"
tokio = { version = "*", features = ["macros", "rt-multi-thread", "sync", "time"] }
tui = "0.19"

[dev-dependencies]
tempfile = "*"
