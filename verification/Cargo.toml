[package]
name = "lore-server"
version = "0.1.0"
edition = "2021"
publish = false

[dependencies]
toml = "*"
serde = "*"
async-trait = "*"
tokio = { version = "*", features = ["rt", "time", "macros"] }
futures = "*"
tracing = "*"
tonic = "*"
anyhow = "*"
pin-project = "*"
http = "*"
tower = "*"
