[package]
name = "scorpiofs"
version = "0.1.0"
edition = "2021"
publish = false

[dependencies]
toml = "=1.1.8"
url = "=2.5.8"
whoami = "=2.1.3"
serde = { version = "=1.0.229", features = ["derive"] }
serde_json = "=1.0.154"
clap = { version = "=4.6.7", features = ["derive"] }
clap_complete = "=4.6.11"
tokio = { version = "=1.54.1", features = ["rt-multi-thread", "macros"] }
reqwest = { version = "=0.13.5", default-features = false, features = ["blocking", "json"] }
tracing = "=0.1.44"
uuid = { version = "=1.29.0", features = ["v4"] }
dashmap = "*"
