[package]
name = "vizier_lib"
version = "0.1.0"
edition = "2021"
publish = false

[dependencies]
petgraph = "0.6"
fuzzy-matcher = "0.3"
cargo_metadata = "0.18"
crossterm = "0.28"
ratatui = "0.29"
dirs = "5"
dotenvy = "0.15"
reqwest = { version = "0.12", default-features = false, features = ["blocking", "json", "rustls-tls"] }
serde = { version = "1", features = ["derive"] }
serde_json = "1"
serde_yaml = "0.9"
syn = { version = "2", features = ["full"] }
thiserror = "1"
webbrowser = "1"
