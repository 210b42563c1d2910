[package]
name = "noir_playground"
version = "0.1.0"
edition = "2021"
publish = false

[dependencies]
ansi-to-html = "=0.2.4"
anyhow = "=1.0.104"
async-trait = "=0.1.92"
axum = "=0.8.9"
octocrab = "=0.43.0"
secrecy = "=0.10.3"
serde = { version = "=1.0.229", features = ["derive"] }
serde_json = "=1.0.151"
tempdir = "=0.3.7"
tokio = { version = "=1.53.2", features = ["macros", "rt-multi-thread", "process"] }
tower-http = { version = "=0.7.1", features = ["fs"] }
