[package]
name = "sync_folder"
version = "0.1.0"
edition = "2021"
publish = false

[dependencies]
bytes = "1"
dotenv = "0.15"
futures = "0.3"
inquire = "0.7"
reqwest = { version = "0.12", default-features = false, features = ["json", "rustls-tls"] }
serde = { version = "1", features = ["derive"] }
serde_json = "1"
tokio = { version = "1", features = ["macros", "rt-multi-thread", "fs", "io-util"] }
