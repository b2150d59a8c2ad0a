[package]
name = "mall"
version = "0.1.0"
edition = "2021"
publish = false

[dependencies]
actix-web = { version = "4", default-features = false, features = ["macros"] }
async-trait = "0.1"
chrono = { version = "0.4", features = ["serde"] }
derive_builder = "*"
dotenv = "0.15"
env_logger = "*"
serde = { version = "1", features = ["derive"] }
serde_json = "1"
sqlx = { version = "0.8", default-features = false, features = ["postgres", "runtime-tokio", "migrate"] }
uuid = { version = "1", features = ["v4", "serde"] }
