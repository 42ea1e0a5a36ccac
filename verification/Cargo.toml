[package]
name = "library_service"
version = "0.1.0"
edition = "2021"
publish = false

[dependencies]
chrono = "0.4"
serde = { version = "1", features = ["derive"] }
actix-web = { version = "4", default-features = false, features = ["macros"] }
sqlx = { version = "0.8", default-features = false, features = ["mysql", "runtime-tokio"] }
reqwest = { version = "0.12", default-features = false, features = ["json"] }
dotenvy = "0.15"
