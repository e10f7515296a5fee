[package]
name = "submission_check"
version = "0.1.0"
edition = "2021"
publish = false

[dependencies]
git2 = { version = "=0.21.0", default-features = false }
uuid = { version = "=1.27.0", features = ["v4"] }
clap = { version = "=4.6.7", features = ["derive"] }
serde = { version = "=1.0.229", features = ["derive"] }
serde_json = "=1.0.151"
octocrab = "=0.51.0"
zip = { version = "=8.6.0", default-features = false }
rand = "=0.10.3"
