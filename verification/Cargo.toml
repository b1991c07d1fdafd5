[package]
name = "smt_backend"
version = "0.1.0"
edition = "2021"
publish = false

[dependencies]
chrono = { version = "0.4", features = ["serde"] }
serde = { version = "1", features = ["derive"] }
bson = "2"
mongodb = "2"
rocket = { version = "0.5", features = ["json"] }
rocket_cors = "0.6"
deadpool = "0.9"
async-trait = "0.1"
dotenv = "0.15"
