[package]
name = "tictactoe"
version = "0.1.0"
edition = "2021"
publish = false

[dependencies]
axum = "=0.8.9"
chrono = { version = "=0.4.45", features = ["serde"] }
dotenvy = "*"
serde = { version = "*", features = ["derive"] }
sqlx = { version = "=0.9.0", default-features = false, features = ["runtime-tokio", "postgres", "chrono", "json", "derive"] }
tokio = { version = "=1.53.2", features = ["macros", "rt-multi-thread", "net"] }
tower-http = { version = "=0.7.1", features = ["fs"] }
tracing = "*"
tracing-subscriber = "=0.3.23"
