[package]
name = "shellprobe"
version = "0.1.0"
edition = "2021"
publish = false

[dependencies]
which = "=8.0.6"
urlencoding = "=2.1.3"
dirs = "=7.0.0"
serde = { version = "=1.0.229", features = ["derive"] }
serde_json = "=1.0.151"
reqwest = { version = "=0.13.5", default-features = false, features = ["blocking", "json"] }
