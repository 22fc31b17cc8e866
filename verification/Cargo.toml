[package]
name = "aiapp"
version = "0.1.0"
edition = "2021"
publish = false

[dependencies]
serde = { version = "1", features = ["derive"] }
serde_json = "1"
thiserror = "1"
anyhow = "1"
clap = { version = "4", features = ["derive"] }
async-trait = "0.1"
tokio = { version = "1", features = ["rt-multi-thread", "macros", "net", "sync"] }
axum = "0.7"
tower-http = { version = "0.5", features = ["fs"] }
ureq = { version = "2", features = ["json"] }
png = "0.17"
