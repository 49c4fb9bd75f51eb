[package]
name = "valet"
version = "0.1.0"
edition = "2021"
publish = false

[dependencies]
regex = "1"
blake3 = "1"
uuid = { version = "1", features = ["v4", "v5"] }
directories = "5"
serde = { version = "1", features = ["derive"] }
serde_json = "1"
sqlx = { version = "0.8", default-features = false, features = ["sqlite", "runtime-tokio"] }
tokio = { version = "1", features = ["rt-multi-thread", "macros", "sync", "time"] }
walkdir = "2"
anyhow = "1"
chrono = "0.4"
notify = "6"
notify-debouncer-mini = "0.4"
dirs = "5"
log = "0.4"
num_cpus = "1"
