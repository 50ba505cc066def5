[package]
name = "rustlrc"
version = "0.1.0"
edition = "2021"
publish = false

[dependencies]
audiotags = "*"
reqwest = { version = "0.12", features = ["blocking", "json"] }
serde = { version = "1", features = ["derive"] }
walkdir = "2"
