[package]
name = "agar_io"
version = "0.1.0"
edition = "2021"
publish = false

[dependencies]
actix = "=0.8.3"
actix-web = "=1.0.9"
actix-web-actors = "=1.0.4"
chrono = "=0.4.19"
futures = "=0.1.31"
rand = "=0.6.5"
serde = { version = "=1.0.229", features = ["derive"] }
serde_json = "=1.0.154"
uuid = { version = "=0.7.4", features = ["v4", "serde"] }
