[package]
name = "yonder_auth"
version = "0.1.0"
edition = "2021"
publish = false

[dependencies]
anyhow = "1"
chrono = "0.4"
dotenv = "*"
envconfig = "*"
jsonwebtoken = "9"
reqwest = { version = "0.12", default-features = false, features = ["json", "rustls-tls"] }
rocket = { version = "0.5", features = ["json", "secrets"] }
rocket_db_pools = { version = "*", features = ["sqlx_postgres"] }
rocket_oauth2 = "*"
serde = { version = "1", features = ["derive"] }
serde_json = "1"
sqlx = { version = "0.7", default-features = false, features = ["macros", "migrate", "postgres", "uuid"] }
uuid = { version = "1", features = ["serde"] }
