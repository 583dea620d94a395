[package]
name = "yasl"
version = "0.1.0"
edition = "2021"
publish = false

[dependencies]
chrono = "=0.4.45"
tabular = "=0.2.0"
poise = "=0.7.1"
sqlx = { version = "=0.9.0", default-features = false, features = ["sqlite", "runtime-tokio", "migrate"] }
tokio = { version = "=1.54.1", features = ["macros", "rt-multi-thread", "fs"] }
figment2 = { version = "=0.11.5", features = ["toml"] }
discord-webhook-lib = "=0.2.3"
env_logger = "=0.11.11"
log = "=0.4.35"
ohno = { version = "=0.5.3", features = ["app-err"] }
serde = { version = "=1.0.229", features = ["derive"] }
signal-hook = "=0.4.6"
signal-hook-tokio = { version = "=0.4.0", features = ["futures-v0_3"] }
futures = "=0.3.34"
