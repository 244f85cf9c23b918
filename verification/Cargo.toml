[package]
name = "nbox"
version = "0.1.0"
edition = "2021"
publish = false

[dependencies]
anyhow = "1"
clap = { version = "=4.6.7", features = ["derive", "env"] }
clap_complete = "4"
dirs = "=7.0.0"
futures = "0.3"
indexmap = { version = "=2.14.2", features = ["serde"] }
ipnet = "=2.12.2"
open = "5"
reqwest = { version = "=0.12.28", default-features = false, features = ["json"] }
rusqlite = { version = "=0.41.1", features = ["bundled"] }
schemars = "=1.2.3"
serde = { version = "1", features = ["derive"] }
serde_json = "=1.0.154"
thiserror = "2"
tokio = { version = "1", features = ["sync", "macros", "rt", "rt-multi-thread", "time"] }
toml = "=1.1.8"
toml_edit = "=0.25.17"
tracing = "0.1"
