[package]
name = "good_first_bot"
version = "0.1.0"
edition = "2021"
publish = false

[dependencies]
url = "=2.5.8"
serde_json = "=1.0.154"
chrono = "=0.4.45"
serde = { version = "=1.0.229", features = ["derive"] }
teloxide = { version = "=0.17.0", features = ["macros", "sqlite-storage-nativetls"] }
takecell = "=0.1.1"
tokio = { version = "=1.54.1", features = ["full"] }
sqlx = { version = "=0.8.6", default-features = false, features = ["runtime-tokio", "sqlite", "migrate"] }
reqwest = { version = "=0.12.28", features = ["json"] }
backoff = { version = "=0.4.0", features = ["tokio"] }
futures = "=0.3.34"
dotenv = "=0.15.0"
tracing = "=0.1.44"
tracing-subscriber = { version = "=0.3.23", features = ["env-filter"] }
async-trait = "=0.1.92"
thiserror = "=2.0.21"
anyhow = "=1.0.104"
graphql_client = { version = "*", default-features = false }
