[package]
name = "authentik_relay"
version = "0.1.0"
edition = "2021"
publish = false

[dependencies]
figment = { version = "*", features = ["toml", "env"] }
reqwest = { version = "*", default-features = false, features = ["blocking", "json"] }
serde = { version = "*", features = ["derive"] }
serde_json = "*"
