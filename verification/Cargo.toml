[package]
name = "vleer"
version = "0.1.0"
edition = "2021"
publish = false

[dependencies]
anyhow = "*"
cuid2 = "*"
dirs = "*"
futures = "*"
lofty = "*"
notify = "*"
notify-debouncer-full = "*"
rodio = "*"
serde = { version = "*", features = ["derive"] }
tokio = { version = "*", features = ["rt", "rt-multi-thread", "sync", "time", "macros"] }
toml = "*"
walkdir = "*"
