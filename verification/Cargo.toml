[package]
name = "cmdstack"
version = "0.1.0"
edition = "2021"
publish = false

[dependencies]
rand = "0.8"
uuid = { version = "1", features = ["v4"] }
fuzzy-matcher = "0.3"
prettytable = { version = "0.10", default-features = false }
serde = { version = "1", features = ["derive"] }
serde_json = "1"
thiserror = "1"
clap = { version = "4", features = ["derive"] }
inquire = "0.7"
cli-clipboard = "0.4"
termion = "4"
dirs = "5"
log = "0.4"
env_logger = "0.11"
log4rs = "1"
validator = { version = "0.18", features = ["derive"] }
tokio = { version = "1", features = ["macros", "rt-multi-thread"] }
sqlx = { version = "0.8", default-features = false, features = ["sqlite", "runtime-tokio"] }
sea-query = "0.32"
