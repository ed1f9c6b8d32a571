[package]
name = "todo_api"
version = "0.1.0"
edition = "2021"
publish = false

[dependencies]
chrono = { version = "0.4", features = ["serde"] }
dotenv = "0.15"
itconfig = { version = "1", features = ["macro"] }
mobc = "0.8"
mobc-postgres = { version = "0.8", features = ["with-chrono-0_4"] }
pretty_env_logger = "*"
serde = { version = "1", features = ["derive"] }
thiserror = "1"
tokio = { version = "1", features = ["macros", "rt-multi-thread"] }
warp = "0.3"
