[package]
name = "youtube-terminal"
version = "0.1.0"
edition = "2021"
publish = false

[dependencies]
anyhow = "=1.0.104"
async-trait = "=0.1.92"
chrono = { version = "=0.4.45", default-features = false, features = ["clock", "std", "serde"] }
crossterm = "=0.28.1"
dirs = "=5.0.1"
image = { version = "=0.25.10", default-features = false, features = ["jpeg", "png", "webp"] }
libc = "=0.2.191"
ratatui = "=0.29.0"
reqwest = { version = "0.12", default-features = false }
rusqlite = { version = "=0.31.0", features = ["bundled"] }
rustypipe = { version = "0.11", default-features = false, features = ["userdata"] }
serde = { version = "=1.0.229", features = ["derive"] }
serde_json = "=1.0.154"
time = "=0.3.55"
tokio = { version = "=1.54.1", features = ["full"] }
toml = "=0.8.23"
