[package]
name = "chatter"
version = "0.1.0"
edition = "2021"
publish = false

[dependencies]
ulid = "=3.0.0"
chrono = "=0.4.45"
anyhow = "*"
async-openai = { version = "=0.42.1", features = ["chat-completion"] }
async-stream = "*"
axum = "*"
clap = { version = "*", features = ["derive"] }
deadpool-postgres = "*"
dialoguer = "*"
futures = "*"
geo-traits = "*"
geo-types = "*"
rust_decimal = { version = "*", features = ["db-tokio-postgres"] }
serde = { version = "*", features = ["derive"] }
serde_json = "*"
tokio = { version = "*", features = ["macros", "rt-multi-thread"] }
tokio-postgres = { version = "=0.7.18", features = ["with-serde_json-1"] }
tower-http = { version = "*", features = ["cors"] }
urlencoding = "*"
wkb = "*"
