[package]
name = "chat_responder"
version = "0.1.0"
edition = "2021"
publish = false

[dependencies]
dotenvy = "0.15"
serenity = "0.12"
tokio = { version = "1", features = ["macros", "rt-multi-thread", "time"] }
tracing = "0.1"
tracing-subscriber = "0.3"
