[package]
name = "reaction_pin"
version = "0.1.0"
edition = "2021"
publish = false

[dependencies]
dotenv = "0.15"
poise = "0.5"
tokio = { version = "1", features = ["macros", "rt-multi-thread"] }
