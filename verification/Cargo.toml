[package]
name = "strict_state"
version = "0.1.0"
edition = "2021"
publish = false

[dependencies]
actix-web = { version = "4", default-features = false, features = ["macros"] }
base64 = "0.22"
serde = { version = "1", features = ["derive"] }
serde_json = "1"
