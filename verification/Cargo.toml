[package]
name = "batter"
version = "0.1.0"
edition = "2021"
publish = false

[dependencies]
anyhow = "=1.0.104"
clap = { version = "=4.6.7", features = ["derive"] }
dotenvy = "=0.15.7"
oxc = { version = "=0.143.0", features = ["ast_visit"] }
reqwest = { version = "=0.12.28", default-features = false, features = ["rustls-tls"] }
scraper = "=0.29.0"
tokio = { version = "=1.54.1", features = ["full"] }
tracing = "=0.1.44"
tracing-subscriber = { version = "=0.3.23", features = ["env-filter"] }
