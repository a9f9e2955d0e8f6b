[package]
name = "ollama_chat"
version = "0.1.0"
edition = "2021"
publish = false

[dependencies]
futures-util = "0.3"
regex = "1"
reqwest = { version = "0.11", default-features = false, features = ["json", "stream"] }
rusqlite = { version = "0.31", features = ["bundled"] }
serde = { version = "1", features = ["derive"] }
serde_json = "1"
tokio = { version = "1", features = ["macros", "rt-multi-thread", "sync"] }
tokio-util = "0.7"
