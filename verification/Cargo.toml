[package]
name = "asset_import"
version = "0.1.0"
edition = "2021"
publish = false

[dependencies]
clap = { version = "4", features = ["derive"] }
confy = "0.6"
csv = "1"
dirs = "5"
oauth2 = "4"
reqwest = { version = "0.11", default-features = false, features = ["blocking", "json"] }
serde = { version = "1", features = ["derive"] }
serde_json = "1"
