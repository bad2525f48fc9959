[package]
name = "dispenser"
version = "0.1.0"
edition = "2021"
publish = false

[dependencies]
async-trait = "0.1"
camino = "1"
chrono = { version = "0.4", features = ["serde"] }
clap = { version = "3", features = ["derive"] }
cron = "0.12"
futures-util = "0.3"
main_error = "0.1"
petname = "1"
rcon = { version = "0.6", features = ["rt-tokio"] }
reqwest = { version = "0.11", features = ["json"] }
serde = { version = "1", features = ["derive"] }
thiserror = "1"
thrussh = "0.33"
thrussh-keys = "0.21"
tokio = { version = "1", features = ["full"] }
toml = "0.5"
tracing = "0.1"
tracing-subscriber = "0.3"
