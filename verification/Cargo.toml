[package]
name = "plustwo"
version = "0.1.0"
edition = "2021"
publish = false

[dependencies]
chrono = { version = "=0.4.45", default-features = false, features = ["std", "serde"] }
uuid = { version = "=1.29.0", features = ["serde"] }
twitch_api = { version = "=0.8.0", features = ["eventsub", "helix", "client", "reqwest", "twitch_oauth2"] }
serde = { version = "1", features = ["derive"] }
reqwest = { version = "0.13", default-features = false, features = ["json", "rustls-no-provider"] }
tokio = { version = "1", features = ["macros", "rt-multi-thread", "net"] }
tokio-stream = "0.1"
tokio-tungstenite = { version = "0.26", features = ["rustls-tls-webpki-roots"] }
sea-orm = { version = "1.1", default-features = false, features = ["macros", "sqlx-postgres", "runtime-tokio-rustls", "with-chrono", "with-uuid"] }
sea-orm-migration = { version = "1.1", default-features = false, features = ["sqlx-postgres", "runtime-tokio-rustls"] }
async-trait = "0.1"
eyre = "0.6"
tracing = "0.1"
tracing-subscriber = "0.3"
indicatif = "0.17"
