[package]
name = "ytmusicd"
version = "0.1.0"
edition = "2021"
publish = false

[dependencies]
shlex = "*"
tokio = { version = "*", features = ["full"] }
axum = "*"
clap = { version = "*", features = ["derive"] }
console = "*"
dialoguer = "*"
indicatif = "*"
fd-lock = "*"
tempfile = "*"
serde = { version = "*", features = ["derive"] }
serde_json = "*"
reqwest = { version = "*", default-features = false, features = ["json", "query", "form"] }
anyhow = "*"
