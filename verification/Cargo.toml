[package]
name = "chat_api_mock"
version = "0.1.0"
edition = "2021"
publish = false

[dependencies]
actix-web = "4"
bytes = "1"
futures = "0.3"
serde = { version = "1", features = ["derive"] }
serde_json = "1"
tokio = { version = "1", features = ["sync", "time", "rt-multi-thread", "macros"] }
