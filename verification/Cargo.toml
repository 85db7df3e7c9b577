[package]
name = "isekai"
version = "0.1.0"
edition = "2021"
publish = false

[dependencies]
anyhow = "*"
argh = "*"
arrow = "*"
arrow-flight = "*"
async-stream = "*"
base64 = "*"
bytes = "*"
futures = "*"
http = "*"
jsonwebtoken = "*"
prost = "*"
rand = "*"
rusqlite = { version = "*", features = ["bundled"] }
serde = { version = "*", features = ["derive"] }
serde_json = "*"
sha2 = "*"
tempfile = "*"
tokio = { version = "*", features = ["rt-multi-thread", "macros", "sync", "time"] }
tokio-stream = "*"
tonic = "*"
tonic-web = "*"
tower-http = { version = "*", features = ["cors"] }
