[package]
name = "rego"
version = "0.1.0"
edition = "2021"
publish = false

[dependencies]
anyhow = "1"
chrono = "0.4"
diesel = { version = "1.4", features = ["postgres", "r2d2"] }
futures = "0.3"
http = "0.2"
jsonwebtoken = "7"
pbkdf2 = "0.4"
serde = { version = "1", features = ["derive"] }
serde_json = { version = "1", features = ["raw_value"] }
thiserror = "1"
tokio = { version = "1", features = ["rt"] }
warp = { version = "0.3", default-features = false }
