[package]
name = "playing"
version = "0.1.0"
edition = "2021"
publish = false

[dependencies]
clap = { version = "4", features = ["derive"] }
mpris = "2"
spotifav = "*"
tokio = { version = "1", features = ["macros", "rt-multi-thread"] }
