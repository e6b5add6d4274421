[package]
name = "renamer"
version = "0.1.0"
edition = "2021"
publish = false

[dependencies]
sled = "0.34"
poise = "0.5"
tokio = { version = "1", features = ["macros", "rt-multi-thread"] }
dotenv = "0.15"
tracing-subscriber = "0.3"
