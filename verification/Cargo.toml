[package]
name = "andromeda_stars"
version = "0.1.0"
edition = "2021"
publish = false

[dependencies]
actix-files = "0.6"
actix-web = { version = "4", default-features = false, features = ["macros"] }
chrono = "0.4"
dotenvy = "0.15"
rust_decimal = "1"
sea-orm = { version = "1", default-features = false, features = ["macros", "sqlx-postgres", "runtime-tokio-rustls", "with-chrono", "with-rust_decimal"] }
serde = { version = "1", features = ["derive"] }
sqlx = { version = "0.8", default-features = false, features = ["postgres", "runtime-tokio", "migrate", "macros"] }
tera = { version = "1", default-features = false }
uuid = { version = "1", features = ["v4"] }
