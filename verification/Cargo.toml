[package]
name = "butler"
version = "0.1.0"
edition = "2021"
publish = false

[dependencies]
serenity = { version = "0.11", features = ["voice", "framework", "standard_framework", "cache", "client", "gateway", "model", "http", "builder", "utils", "rustls_backend"] }
songbird = { version = "0.3", features = ["builtin-queue"] }
tokio = { version = "1", features = ["macros", "rt-multi-thread", "signal"] }
reqwest = { version = "0.11", features = ["json"] }
serde = { version = "1", features = ["derive"] }
chrono = "0.4"
dotenv = "0.15"
tracing = "0.1"
tracing-subscriber = "0.3"
