[package]
name = "shogi_kifu"
version = "0.1.0"
edition = "2021"
publish = false

[dependencies]
regex = "1"
chrono = "0.4"
encoding_rs = "0.8"
mysql = { version = "*", default-features = false, features = ["minimal"] }
axum = "0.6"
tokio = { version = "1", features = ["full"] }
tower-http = { version = "0.4", features = ["cors"] }
serde = { version = "1", features = ["derive"] }
dotenvy = "0.15"
lazy_static = "1"
once_cell = "1"
