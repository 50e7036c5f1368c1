[package]
name = "peer_ledger"
version = "0.1.0"
edition = "2021"
publish = false

[dependencies]
dioxus = { version = "*", default-features = false, features = ["hooks", "signals"] }
log = "0.4"
rusqlite = { version = "*", features = ["bundled"] }
serde = { version = "1", features = ["derive"] }
tokio = { version = "1", features = ["rt", "sync", "time"] }
