[package]
name = "article_aggregator"
version = "0.1.0"
edition = "2021"
publish = false

[dependencies]
aho-corasick = "1"
rayon = "1"
serde = { version = "1", features = ["derive"] }
serde_json = "1"
scraper = "*"
governor = "*"
tokio = { version = "1", features = ["macros", "rt-multi-thread", "time", "signal"] }
tokio-util = "0.7"
futures = "0.3"
reqwest = "0.12"
thiserror = "1"
tracing = "0.1"
tracing-subscriber = { version = "0.3", features = ["env-filter", "json"] }
config = { version = "*", default-features = false, features = ["toml"] }
