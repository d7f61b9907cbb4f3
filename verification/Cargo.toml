[package]
name = "taigi_lookup"
version = "0.1.0"
edition = "2021"
publish = false

[dependencies]
scraper = "*"
serde_json = "*"
urlencoding = "*"
reqwest = "*"
serenity = "*"
tokio = { version = "*", features = ["macros", "rt-multi-thread"] }
dotenv = "*"
