[package]
name = "gh_env_sync"
version = "0.1.0"
edition = "2021"
publish = false

[dependencies]
serde_json = "1"
serde = { version = "1", features = ["derive"] }
clap = { version = "4", features = ["derive"] }
tokio = { version = "1", features = ["macros", "rt-multi-thread", "fs"] }
toml = "0.8"
reqwest = { version = "0.12", default-features = false, features = ["rustls-tls"] }
