[package]
name = "club_core"
version = "0.1.0"
edition = "2021"
publish = false

[dependencies]
chrono = { version = "0.4", features = ["serde"] }
log = "0.4"
rustc-hash = "2"
serde = { version = "1", features = ["derive"] }
