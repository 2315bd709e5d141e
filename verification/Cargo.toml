[package]
name = "stream_gate"
version = "0.1.0"
edition = "2021"
publish = false

[dependencies]
actix = "0.13"
actix-files = "0.6"
actix-web = { version = "4", default-features = false, features = ["macros", "ws"] }
actix-web-actors = "4"
argon2 = "=0.5.3"
askama = "0.12"
askama_actix = "0.14"
rand = "=0.8.8"
ron = "0.8"
serde = { version = "1", features = ["derive"] }
serde_json = "1"
sqlx = { version = "0.8", default-features = false, features = ["runtime-tokio", "mysql"] }
tracing = "0.1"
tracing-subscriber = "0.3"
ureq = { version = "2", features = ["json"] }
uuid = { version = "=1.29.0", features = ["v4", "serde"] }
