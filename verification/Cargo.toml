[package]
name = "lark-arena"
version = "0.1.0"
edition = "2021"
publish = false

[dependencies]
anyhow = "1"
async-openai = { version = "*", features = ["chat-completion"] }
axum = "0.8"
fastrand = "2"
foldhash = "0.2"
mimalloc = { version = "0.1", default-features = false }
parking_lot = "0.12"
redb = "3"
reqwest = { version = "0.12", default-features = false, features = ["json", "rustls-tls"] }
serde = { version = "1", features = ["derive"] }
serde_json = "1"
sonic-rs = "0.5"
tokio = { version = "1", features = ["macros", "rt-multi-thread", "net", "sync", "time"] }
tracing = "0.1"
tracing-subscriber = { version = "0.3", features = ["env-filter"] }
uuid = { version = "1", features = ["v4"] }
