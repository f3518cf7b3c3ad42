[package]
name = "youmubot"
version = "0.1.0"
edition = "2021"
publish = false

[dependencies]
serenity = "=0.12.5"
dotenv = "=0.15.0"
tokio = { version = "=1.54.1", features = ["macros", "rt-multi-thread"] }
