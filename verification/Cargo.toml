[package]
name = "goldboot"
version = "0.1.0"
edition = "2021"
publish = false

[dependencies]
hex = "0.4"
png = "0.17"
rand = "0.8"
serde = { version = "1", features = ["derive"] }
serde_json = "1"
sha1 = "0.10"
sha2 = "0.10"
vnc = "0.4"
