[package]
name = "blog_core"
version = "0.1.0"
edition = "2021"
publish = false

[dependencies]
axum = "0.6"
bcrypt = "0.15"
bson = "2"
dotenv = "0.15"
futures = "0.3"
jsonwebtoken = "9"
mongodb = "2"
serde = { version = "1", features = ["derive"] }
serde_json = { version = "1", features = ["preserve_order"] }
thiserror = "1"
tokio = { version = "1", features = ["macros", "rt-multi-thread"] }
tracing = "0.1"
tracing-subscriber = { version = "0.3", features = ["env-filter"] }
