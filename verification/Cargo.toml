[package]
name = "fountain"
version = "0.1.0"
edition = "2021"
publish = false

[dependencies]
chrono = "=0.4.45"
sha2 = "=0.11.0"
serde = { version = "=1.0.229", features = ["derive"] }
serde_json = "=1.0.151"
reqwest = { version = "=0.13.5", default-features = false, features = ["json", "query"] }
tokio = { version = "=1.53.2", default-features = false, features = ["rt-multi-thread", "macros", "time", "sync", "signal"] }
log = "=0.4.34"
env_logger = "=0.11.11"
plist = "=1.10.1"
rusqlite = { version = "=0.40.2", features = ["bundled"] }
