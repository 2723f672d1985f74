[package]
name = "tada-rust"
version = "0.1.0"
edition = "2021"
publish = false

[dependencies]
anyhow = "1"
arabic_reshaper = "*"
clap = { version = "4", features = ["derive"] }
comfy-table = { version = "7", default-features = false }
crossterm = "0.28"
directories = "*"
indicatif = "*"
inquire = { version = "0.7", default-features = false, features = ["crossterm"] }
owo-colors = "4"
ratatui = "=0.29.0"
reqwest = { version = "0.12", default-features = false, features = ["json", "rustls-tls"] }
rusqlite = { version = "*", features = ["bundled"] }
serde = { version = "1", features = ["derive"] }
serde_json = "1"
serde_yaml = "0.9"
textwrap = "*"
tokio = { version = "1", features = ["rt", "time", "net"] }
toml = "*"
tracing-subscriber = { version = "0.3", features = ["env-filter", "fmt"] }
unicode-bidi = "*"
unicode-normalization = "*"
webbrowser = "*"
