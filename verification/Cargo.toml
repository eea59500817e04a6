[package]
name = "jobex_scraper"
version = "0.1.0"
edition = "2021"
publish = false

[dependencies]
async-trait = "0.1"
chromiumoxide = { version = "0.7", default-features = false, features = ["tokio-runtime"] }
futures = "0.3"
regex = "1"
reqwest = { version = "0.12", default-features = false, features = ["rustls-tls"] }
serde_json = "1"
tokio = { version = "1", features = ["macros", "rt-multi-thread", "time"] }
