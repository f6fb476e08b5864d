[package]
name = "pastebin"
version = "0.1.0"
edition = "2021"
publish = false

[dependencies]
bcrypt = "0.15"
bson = "2"
chrono = "0.4"
dotenv = "0.15"
mongodb = { version = "2", features = ["tokio-sync"] }
rocket = { version = "0.5", features = ["json"] }
rocket_cors = "0.6"
serde = { version = "1", features = ["derive"] }
validator = { version = "0.16", features = ["derive"] }

[dev-dependencies]
regex = "1"
