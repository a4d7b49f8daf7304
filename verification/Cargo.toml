[package]
name = "apexscan"
version = "0.1.0"
edition = "2021"
publish = false

[dependencies]
regex = "*"
dashmap = "*"
serde = { version = "*", features = ["derive"] }
serde_json = "*"
serde_yaml = "*"
tokio = { version = "*", features = ["full"] }
clap = { version = "*", features = ["derive"] }
colored = "*"
chrono = { version = "*", features = ["serde"] }
socket2 = { version = "*", features = ["all"] }
libc = "*"
tracing = "*"
tracing-subscriber = { version = "*", features = ["env-filter"] }
futures = "*"
async-trait = "*"
thiserror = "*"
pyo3 = "*"
