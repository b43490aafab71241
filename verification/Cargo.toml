[package]
name = "admin_auth"
version = "0.1.0"
edition = "2021"
publish = false

[dependencies]
axum = "=0.8.9"
axum-extra = { version = "=0.12.6", features = ["cookie-signed"] }
bcrypt = "=0.19.3"
chrono = "=0.4.45"
cookie = { version = "=0.18.2", features = ["signed"] }
gloo-net = "=0.7.0"
jsonwebtoken = "=9.3.1"
leptos = "=0.8.22"
leptos_router = "=0.8.17"
serde = { version = "=1.0.229", features = ["derive"] }
serde_json = "=1.0.154"
serde_urlencoded = "=0.7.1"
sqlx = { version = "=0.9.0", default-features = false, features = ["postgres", "runtime-tokio", "uuid"] }
web-sys = { version = "=0.3.106", features = ["Storage", "Window"] }
