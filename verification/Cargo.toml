[package]
name = "ordtx"
version = "0.1.0"
edition = "2021"
publish = false

[dependencies]
anyhow = "*"
base64 = "*"
bitcoin = "*"
clap = { version = "*", features = ["derive"] }
esplora-client = { version = "*", default-features = false, features = ["blocking"] }
reqwest = { version = "*", default-features = false, features = ["blocking", "json"] }
serde = { version = "*", features = ["derive"] }
serde_json = "*"
toml = "*"
