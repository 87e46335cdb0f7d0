[package]
name = "task_tracker"
version = "0.1.0"
edition = "2021"
publish = false

[dependencies]
anyhow = "1"
axum = "*"
chrono = { version = "0.4", features = ["serde"] }
clap = { version = "4", features = ["derive"] }
diesel = { version = "2", features = ["postgres", "r2d2", "chrono"] }
diesel_migrations = "2"
serde = { version = "1", features = ["derive"] }
tokio = { version = "1", features = ["rt-multi-thread", "net", "signal", "macros"] }
tracing = "0.1"
tracing-subscriber = "0.3"
