[package]
name = "hiqlite"
version = "0.1.0"
edition = "2021"
publish = false

[dependencies]
sha2 = "=0.10.9"
getrandom = "=0.2.17"
hex = "=0.4.3"
bincode = { version = "=2.0.1", features = ["serde"] }
serde = { version = "=1.0.229", features = ["derive"] }
uuid = { version = "=1.29.0", features = ["v7"] }
rusqlite = { version = "=0.41.1", features = ["bundled", "backup", "hooks", "functions", "column_decltype"] }
tokio = { version = "=1.54.1", features = ["rt-multi-thread", "fs", "sync", "macros", "io-util"] }
flume = "=0.11.1"
fs4 = { version = "=1.1.0", features = ["sync"] }
thiserror = "=2.0.21"
clap = { version = "=4.6.7", features = ["derive"] }
deadpool = { version = "=0.13.1", features = ["unmanaged"] }
rust-embed = "8"
home = "0.5"
