[package]
name = "net_diagram"
version = "0.1.0"
edition = "2021"
publish = false

[dependencies]
sanitize_html = "*"
axum = "*"
tokio = { version = "*", features = ["macros", "rt-multi-thread", "net"] }
serde = { version = "*", features = ["derive"] }
sqlx = { version = "*", default-features = false, features = ["runtime-tokio", "sqlite", "macros"] }
tower-http = { version = "*", features = ["cors"] }
