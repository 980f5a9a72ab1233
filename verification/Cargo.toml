[package]
name = "rdp_man"
version = "0.1.0"
edition = "2021"
publish = false

[dependencies]
serde = { version = "1", features = ["derive"] }
rusqlite = "*"
ironrdp-blocking = "*"
ironrdp-connector = "*"
ironrdp-core = "*"
ironrdp-graphics = "*"
ironrdp-pdu = "*"
ironrdp-session = "*"
ironrdp-cliprdr = "*"
arboard = "*"
dirs = "*"
anyhow = "1"
tracing = "*"
