[package]
name = "opengraph"
version = "0.1.0"
edition = "2021"
publish = false

[dependencies]
axum = "*"
reqwest = "*"
scraper = "*"
serde = { version = "*", features = ["derive"] }
tokio = { version = "*", features = ["macros", "rt-multi-thread", "net"] }
