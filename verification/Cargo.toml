[package]
name = "scrapper"
version = "0.1.0"
edition = "2021"
publish = false

[dependencies]
scraper = "*"
reqwest = { version = "*", default-features = false }
tokio = { version = "*", features = ["macros", "rt-multi-thread", "fs", "io-util", "time"] }
csv-async = { version = "*", features = ["tokio"] }
tokio-stream = "*"
clap = { version = "*", features = ["derive"] }
serde = { version = "*", features = ["derive"] }
toml = "*"
indicatif = "*"
anyhow = "*"
thiserror = "*"
