[package]
name = "image_resolver"
version = "0.1.0"
edition = "2021"
publish = false

[dependencies]
regex = "=1.13.1"
serenity = { version = "=0.10.10", features = ["unstable_discord_api"] }
reqwest = "=0.11.27"
tokio = { version = "=1.54.1", features = ["macros", "rt-multi-thread"] }
image = { version = "=0.23.14", default-features = false, features = ["gif", "png", "jpeg", "webp"] }
dotenv = "=0.15.0"
