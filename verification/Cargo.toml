[package]
name = "ops_hub"
version = "0.1.0"
edition = "2021"
publish = false

[dependencies]
uuid = "1"
chrono = { version = "0.4", default-features = false, features = ["alloc"] }
serde = { version = "1", features = ["derive"] }
serde_json = "1"
