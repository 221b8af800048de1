[package]
name = "mmfplace"
version = "0.1.0"
edition = "2021"
publish = false

[dependencies]
anyhow = "1"
base16ct = { version = "0.2", features = ["alloc"] }
chrono = "0.4"
clap = { version = "4", features = ["derive"] }
filetime = "0.2"
futures = "0.3"
md-5 = "0.10"
regex = "1"
rusqlite = { version = "*", features = ["bundled"] }
serde = { version = "1", features = ["derive"] }
serde_json = "1"
serde_yaml = "0.9"
sha2 = "0.10"
tokio = { version = "1", features = ["fs", "io-util", "macros", "process", "rt-multi-thread", "sync"] }
toml = "*"
walkdir = "2"
