[package]
name = "ao_projects"
version = "0.1.0"
edition = "2021"
publish = false

[dependencies]
chrono = { version = "0.4", features = ["serde"] }
uuid = { version = "1", features = ["v4"] }
sha2 = "0.10"
dirs = "*"
serde = { version = "1", features = ["derive"] }
serde_json = "1"
anyhow = "1"
clap = { version = "4", features = ["derive", "env"] }
tokio = { version = "1", features = ["macros", "rt-multi-thread", "sync"] }
reqwest = { version = "*", default-features = false, features = ["json"] }
rmcp = { version = "*", features = ["server", "transport-io"] }
tracing = "0.1"
tracing-subscriber = "0.3"
