[package]
name = "stride"
version = "0.1.0"
edition = "2021"
publish = false

[dependencies]
rand = "=0.8.8"
indexmap = "=2.14.2"
lavalink-rs = { version = "=0.10.0", features = ["serenity-rustls", "songbird"] }
poise = "0.6"
serenity = { version = "0.12", default-features = false, features = ["client", "gateway", "model", "cache", "rustls_backend", "voice"] }
songbird = { version = "0.4", default-features = false, features = ["gateway", "serenity", "rustls"] }
sqlx = { version = "0.7.4", default-features = false, features = ["mysql", "runtime-tokio"] }
tokio = { version = "1", features = ["macros", "rt-multi-thread"] }
tracing = "0.1"
tracing-subscriber = "0.3"
dotenv = "0.15"
serde_json = "1"
