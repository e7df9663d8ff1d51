[package]
name = "omni_manifest"
version = "0.1.0"
edition = "2021"
publish = false

[dependencies]
semver = { version = "1", features = ["serde"] }
serde = { version = "1", features = ["derive"] }
serde_ignored = "0.1"
toml = "0.5"
url = "2"
