[package]
name = "markstx"
version = "0.1.0"
edition = "2021"
publish = false

[dependencies]
anyhow = "1"
clap = { version = "4", features = ["derive"] }
clio = { version = "0.3", features = ["clap-parse"] }
csv = "1"
lipsum = "0.9"
minijinja = { version = "1", features = ["loader"] }
pulldown-cmark = { version = "0.9", default-features = false }
rust-embed = "8"
serde = { version = "1", features = ["derive"] }
serde_yaml = "0.9"
