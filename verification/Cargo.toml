[package]
name = "kuzu_ogm"
version = "0.1.0"
edition = "2021"
publish = false

[dependencies]
kuzu = "*"
serde = { version = "1", features = ["derive"] }
serde_json = "1"
thiserror = "*"
syn = { version = "2", features = ["full"] }
quote = "1"
