[package]
name = "pando"
version = "0.1.0"
edition = "2021"
publish = false

[dependencies]
axum = "0.8"
base64 = "0.22"
dotenvy = "0.15"
form_urlencoded = "1"
hex = "0.4"
rand = "0.9"
rmcp = { version = "*", features = ["server", "macros", "transport-streamable-http-server"] }
schemars = "1"
serde = { version = "1", features = ["derive"] }
sha2 = "0.10"
sqlx = { version = "0.8", default-features = false, features = ["runtime-tokio", "postgres", "time", "derive", "macros"] }
subtle = "2"
time = { version = "0.3", features = ["parsing", "formatting", "serde", "macros"] }
tokio = { version = "1", features = ["macros", "rt-multi-thread", "net"] }
tower = "0.5"
