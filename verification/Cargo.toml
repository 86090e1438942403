[package]
name = "installinator_artifactd"
version = "0.1.0"
edition = "2021"
publish = false

[dependencies]
bytes = "1"
schemars = "0.8"
serde = { version = "1", features = ["derive"] }
slog = "2"
