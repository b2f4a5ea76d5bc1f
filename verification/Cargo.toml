[package]
name = "user_signup"
version = "0.1.0"
edition = "2021"
publish = false

[dependencies]
sha2 = "0.10"
actix-web = { version = "4", default-features = false, features = ["macros"] }
actix-files = "0.6"
sqlx = { version = "0.8", default-features = false, features = ["postgres", "runtime-tokio"] }
handlebars = "4"
serde = { version = "1", features = ["derive"] }
dotenv = "0.15"
env_logger = "0.11"
