[package]
name = "ornament_tree"
version = "0.1.0"
edition = "2021"
publish = false

[dependencies]
hex = "0.4"
sha2 = "0.10"
rs_merkle = "1.4"
serde = { version = "1", features = ["derive"] }
serde_json = "1"
axum = "0.7"
tokio = { version = "1", features = ["macros", "rt-multi-thread", "net"] }
tower-http = { version = "0.5", features = ["cors"] }
tracing = "0.1"
tracing-subscriber = "0.3"
diesel = { version = "2", features = ["sqlite", "r2d2", "chrono", "returning_clauses_for_sqlite_3_35"] }
chrono = "0.4"
reqwest = { version = "0.12", default-features = false, features = ["json", "multipart", "rustls-tls"] }

[dev-dependencies]
regex = "1"
