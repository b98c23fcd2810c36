[package]
name = "cr_bot"
version = "0.1.0"
edition = "2021"
publish = false

[dependencies]
git2 = "=0.21.0"
clap = { version = "=4.6.7", features = ["derive"] }
colored = "=3.1.1"
serde = { version = "=1.0.229", features = ["derive"] }
reqwest = { version = "=0.12.28", default-features = false, features = ["json", "rustls-tls"] }
tokio = { version = "=1.53.2", features = ["rt-multi-thread", "macros"] }
futures = "=0.3.34"
async-openai = { version = "=0.42.1", features = ["chat-completion"] }
