[package]
name = "taskapp"
version = "0.1.0"
edition = "2021"
publish = false

[dependencies]
dirs = "*"
rand = "0.8"
serde = { version = "1", features = ["derive"] }
serde_json = "1"
slint = { version = "1", default-features = false, features = ["std", "compat-1-2"] }
