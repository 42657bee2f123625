[package]
name = "dengine"
version = "0.1.0"
edition = "2021"
publish = false

[dependencies]
chrono = "0.4"
deslite = "*"
mysql = "*"
serde = { version = "1", features = ["derive"] }
