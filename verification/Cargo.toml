[package]
name = "n8sight"
version = "0.1.0"
edition = "2021"
publish = false

[dependencies]
chrono = { version = "0.4", features = ["serde"] }
serde = { version = "1", features = ["derive"] }
serde_json = "1"
ratatui = "0.29"
crossterm = "0.28"
tokio = { version = "1", features = ["rt-multi-thread", "macros", "sync", "time"] }
reqwest = { version = "0.12", default-features = false, features = ["json", "rustls-tls"] }
clap = { version = "4", features = ["derive"] }
color-eyre = "0.6"
dirs = "5"
dotenvy = "0.15"
arboard = { version = "3", default-features = false }
open = "5"
toml = "0.8"
tracing = "0.1"
async-trait = "0.1"
