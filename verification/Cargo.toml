[package]
name = "funky_lesson"
version = "0.1.0"
edition = "2021"
publish = false

[dependencies]
serde = { version = "=1.0.229", features = ["derive"] }
serde_json = "=1.0.154"
actix-web = "=4.18.1"
actix-cors = "=0.7.2"
reqwest = "=0.12.28"
tokio = { version = "=1.54.1", features = ["rt-multi-thread", "macros", "sync", "time"] }
