[package]
name = "reminder_bot"
version = "0.1.0"
edition = "2021"
publish = false

[dependencies]
anyhow = "1"
chrono = "0.4"
diesel = { version = "1.4", features = ["sqlite"] }
fastrand = "1"
futures = "0.3"
log = "0.4"
serde = { version = "1", features = ["derive"] }
simple_logger = "1"
telegram-bot = "*"
thiserror = "1"
tokio = { version = "1", features = ["rt", "macros", "signal", "time"] }
toml = "0.5"
