[package]
name = "fred_rss"
version = "0.1.0"
edition = "2021"
publish = false

[dependencies]
rss = "2"
serde = { version = "1", features = ["derive"] }
serde_json = "1"
tokio = { version = "1", features = ["macros", "rt-multi-thread", "sync"] }
reqwest = { version = "0.11", default-features = false }
crossterm = "0.25"
tui = "0.19"
