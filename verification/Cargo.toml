[package]
name = "task_service"
version = "0.1.0"
edition = "2021"
publish = false

[dependencies]
dotenv = "0.15"
mysql = { version = "*", default-features = false, features = ["minimal"] }
rocket = { version = "0.5", features = ["json"] }
rocket_cors = "0.6"
