[package]
name = "fragekasten"
version = "0.1.0"
edition = "2021"
publish = false

[dependencies]
pulldown-cmark = { version = "*", default-features = false }
serde = { version = "*", features = ["derive"] }
tokio = { version = "*", features = ["rt-multi-thread", "macros", "net", "signal", "time"] }
axum = "*"
axum-client-ip = "*"
axum-extra = { version = "*", features = ["typed-header"] }
sqlx = { version = "*", default-features = false, features = ["sqlite", "runtime-tokio"] }
reqwest = { version = "*", default-features = false, features = ["json"] }
chrono = { version = "*", default-features = false, features = ["clock"] }
clap = { version = "*", features = ["derive", "env"] }
dotenvy = "*"
anyhow = "*"
tower-http = { version = "*", features = ["trace", "normalize-path", "catch-panic"] }
tracing = "*"
tracing-subscriber = { version = "*", features = ["env-filter"] }
