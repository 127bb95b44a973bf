[package]
name = "pixivdwn"
version = "0.1.0"
edition = "2021"
publish = false

[dependencies]
anyhow = "*"
async-stream = "*"
chrono = { version = "*", features = ["serde"] }
clap = { version = "*", features = ["derive"] }
dotenvy = "*"
futures = "*"
indicatif = "*"
rand = "=0.10.3"
serde = { version = "*", features = ["derive"] }
serde_json = "*"
serde_repr = "*"
sqlx = { version = "*", default-features = false, features = ["runtime-tokio", "sqlite", "chrono", "macros"] }
tempfile = "*"
thiserror = "*"
tokio = { version = "*", features = ["rt-multi-thread", "macros", "time", "sync", "fs"] }
tracing = "*"
tracing-subscriber = "*"
wreq = "=0.15.3"
wreq-util = "=0.1.0"
zip = { version = "*", default-features = false, features = ["deflate"] }
image = { version = "*", default-features = false, features = ["png", "jpeg", "gif"] }
