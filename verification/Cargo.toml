[package]
name = "say_hi"
version = "0.1.0"
edition = "2021"
publish = false

[dependencies]
http = "0.2"
chrono = { version = "0.4", features = ["serde"] }
serde = { version = "1", features = ["derive"] }
axum = "0.6"
tower = "0.4"
futures = "0.3"
futures-util = "0.3"
tokio = { version = "1", features = ["macros", "rt-multi-thread"] }
actix-web = { version = "4", default-features = false, features = ["macros"] }
actix-files = "0.6"
