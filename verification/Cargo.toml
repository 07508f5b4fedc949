[package]
name = "match_backfill"
version = "0.1.0"
edition = "2021"
publish = false

[dependencies]
chrono = "0.4"
rayon = "1"
reqwest = { version = "0.11", default-features = false, features = ["blocking", "json"] }
serde = { version = "1", features = ["derive"] }
serde_json = "1"
tokio = { version = "1", features = ["rt-multi-thread", "macros", "signal"] }
tracing = "0.1"
tracing-subscriber = "0.3"
walkdir = "2"
zip = { version = "0.6", default-features = false }
