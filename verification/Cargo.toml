[package]
name = "self_updater"
version = "0.1.0"
edition = "2021"
publish = false

[dependencies]
reqwest = { version = "0.12", default-features = false, features = ["blocking", "json"] }
serde = { version = "1", features = ["derive"] }
tempfile = "3"
thiserror = "1"
ureq = "2"
