[package]
name = "sky_orm"
version = "0.1.0"
edition = "2021"
publish = false

[dependencies]
sqlparser = "*"
sqlx = { version = "*", default-features = false, features = ["sqlite", "runtime-tokio"] }
tokio = { version = "*", default-features = false, features = ["rt-multi-thread", "macros", "fs"] }
clap = { version = "*", features = ["derive"] }
dotenvy = "*"
serde = { version = "*", features = ["derive"] }
serde_json = "*"
