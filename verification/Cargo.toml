[package]
name = "pixure"
version = "0.1.0"
edition = "2021"
publish = false

[dependencies]
ring = "*"
serde = { version = "*", features = ["derive"] }
actix-web = "*"
actix-multipart = "*"
mongodb = "*"
reqwest = { version = "*", default-features = false, features = ["json", "multipart", "stream"] }
futures = "*"
