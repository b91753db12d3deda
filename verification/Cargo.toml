[package]
name = "lead_ingest"
version = "0.1.0"
edition = "2021"
publish = false

[dependencies]
anyhow = "*"
chrono = "*"
csv = "*"
dotenvy = "*"
glob = "*"
sqlx = { version = "*", default-features = false, features = ["mysql", "runtime-tokio"] }
tokio = { version = "*", features = ["macros", "rt-multi-thread"] }
