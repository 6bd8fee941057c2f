[package]
name = "data_fetcher"
version = "0.1.0"
edition = "2021"
publish = false

[dependencies]
rss = "2"
scraper = "*"
reqwest = { version = "0.12", default-features = false, features = ["rustls-tls"] }
tokio = { version = "1", features = ["macros", "rt-multi-thread", "net"] }
axum = "*"
confy = "*"
serde = { version = "1", features = ["derive"] }
serde_json = "1"
thiserror = "*"
