[package]
name = "arcz"
version = "0.1.0"
edition = "2021"
publish = false

[dependencies]
sha2 = "=0.10.9"
serde = { version = "=1.0.229", features = ["derive"] }
serde_json = "=1.0.154"
thiserror = "=1.0.69"
image = { version = "0.25", default-features = false }
zip = { version = "2", default-features = false, features = ["deflate"] }
