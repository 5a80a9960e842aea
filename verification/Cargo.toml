[package]
name = "dashboard"
version = "0.1.0"
edition = "2021"
publish = false

[dependencies]
tui = { version = "0.19", default-features = false, features = ["crossterm"] }
crossterm = "0.25"
chrono = { version = "0.4", features = ["serde"] }
figlet-rs = "0.1"
serde = { version = "1", features = ["derive"] }
serde_json = "1"
tokio = { version = "1", features = ["macros", "rt-multi-thread"] }
sqlx = { version = "0.7", default-features = false, features = ["sqlite", "runtime-tokio", "chrono", "migrate"] }
log = "0.4"
log4rs = "1"
