[package]
name = "meowify"
version = "0.1.0"
edition = "2021"
publish = false

[dependencies]
sha2 = "0.10"
base64 = "0.22"
serde = { version = "1", features = ["derive"] }
serde_json = "1"
clap = { version = "4", features = ["derive"] }
thiserror = "2"
reqwest = { version = "0.12", default-features = false, features = ["json", "rustls-tls"] }
rusqlite = { version = "0.32", features = ["bundled"] }
directories = "5"
tokio = { version = "1", features = ["rt-multi-thread", "macros", "sync", "time"] }
libp2p = { version = "0.54", features = ["tokio", "mdns", "tcp", "noise", "yamux", "request-response", "json", "macros"] }
