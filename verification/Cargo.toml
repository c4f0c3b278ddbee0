[package]
name = "botcore"
version = "0.1.0"
edition = "2021"
publish = false

[dependencies]
serde_json = "1"
serenity = "0.11"
reqwest = { version = "0.11", default-features = false, features = ["json", "rustls-tls"] }
tokio = { version = "1", features = ["macros", "rt-multi-thread"] }
dotenv = "0.15"
riven = { version = "1", default-features = false, features = ["rustls-tls"] }
