[package]
name = "resource_store"
version = "0.1.0"
edition = "2021"
publish = false

[dependencies]
actix-web = { version = "4", default-features = false, features = ["macros"] }
deadpool-postgres = "=0.14.2"
dotenv = "=0.15.0"
serde = { version = "1", features = ["derive"] }
tokio-postgres = "=0.7.18"
uuid = { version = "=1.27.0", features = ["v4", "serde"] }
