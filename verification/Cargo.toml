[package]
name = "mcvm"
version = "0.1.0"
edition = "2021"
publish = false

[dependencies]
shellexpand = "3"
serde = { version = "1", features = ["derive"] }
serde_json = "1"
anyhow = "1"
itertools = "0.11"
color-print = "0.3"
clap = { version = "4", features = ["derive"] }
thiserror = "1"
tokio = { version = "1", features = ["rt", "macros", "fs", "sync"] }
reqwest = { version = "0.11", default-features = false }
