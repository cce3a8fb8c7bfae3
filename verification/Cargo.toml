[package]
name = "flyer_orm"
version = "0.1.0"
edition = "2021"
publish = false

[dependencies]
anyhow = "1"
serde = { version = "1", features = ["derive"] }
sqlx = { version = "0.8", default-features = false, features = ["runtime-tokio", "sqlite", "mysql", "postgres", "derive"] }
tokio = { version = "1", features = ["macros", "rt-multi-thread"] }
