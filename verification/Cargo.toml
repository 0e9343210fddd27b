[package]
name = "oddlauncher"
version = "0.1.0"
edition = "2021"
publish = false

[dependencies]
chrono = "*"
urlencoding = "*"
which = "*"
serde = { version = "*", features = ["derive"] }
serde_json = "*"
libc = "*"
reqwest = { version = "*", default-features = false, features = ["blocking"] }
dirs = "*"
