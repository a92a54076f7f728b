[package]
name = "recruitment"
version = "0.1.0"
edition = "2021"
publish = false

[dependencies]
toml = "0.9"
poise = "0.6"
tokio = { version = "1", features = ["rt-multi-thread", "macros", "time"] }
dotenvy = "0.15"
serde = { version = "1", features = ["derive"] }
