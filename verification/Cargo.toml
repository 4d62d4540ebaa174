[package]
name = "cratedocs_mcp"
version = "0.1.0"
edition = "2021"
publish = false

[dependencies]
html2md = "=0.2.17"
reqwest = { version = "=0.12.28", default-features = false, features = ["rustls-tls"] }
rmcp = "=0.1.5"
serde = "1"
tokio = { version = "=1.54.1", features = ["sync"] }
