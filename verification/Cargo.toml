[package]
name = "pr_ticket_sync"
version = "0.1.0"
edition = "2021"
publish = false

[dependencies]
html2md = "=0.2.17"
octocrab = "=0.47.1"
reqwest = { version = "=0.12.28", default-features = false, features = ["json", "rustls-tls"] }
tokio = { version = "=1.53.2", features = ["rt", "time", "macros"] }
async-trait = "=0.1.92"
dotenv = "=0.15.0"
tracing = "=0.1.44"
tracing-subscriber = { version = "=0.3.23", features = ["env-filter"] }
serde_json = "=1.0.151"
url = "=2.5.8"
