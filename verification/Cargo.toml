[package]
name = "traewelling_rss"
version = "0.1.0"
edition = "2021"
publish = false

[dependencies]
axum = "0.6"
chrono = { version = "0.4", features = ["serde"] }
chrono-tz = "0.8"
dotenv = "0.15"
r2d2 = "0.8"
r2d2_sqlite = { version = "0.22", features = ["bundled"] }
rand = "0.8"
reqwest = { version = "0.11", features = ["json"] }
rss = "2"
serde = { version = "1", features = ["derive"] }
tokio = { version = "1", features = ["full"] }
