[package]
name = "libsql_client"
version = "0.1.0"
edition = "2021"
publish = false

[dependencies]
anyhow = "1"
hrana-client = "*"
hyper = { version = "0.14", features = ["client", "http1", "tcp"] }
serde_json = "1"
tokio = { version = "1", features = ["rt", "macros", "sync"] }
tower = "0.4"
tracing = "0.1"
url = "2"
