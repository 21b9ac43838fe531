[package]
name = "auth_core"
version = "0.1.0"
edition = "2021"
publish = false

[dependencies]
sha2 = "0.10"
rand = "0.8"
base64 = "0.22"
hex = "0.4"
rusty_paseto = "0.7"
uuid = { version = "1", features = ["v4"] }
chrono = "0.4"
oauth2 = { version = "5", default-features = false }
serde_json = "1"
serde = { version = "1", features = ["derive"] }
ulid = "1"
ed25519-dalek = "2"
toml = "0.8"
rsa = "0.9"
axum = "0.7"
axum-extra = { version = "0.9", features = ["cookie"] }
tower-http = { version = "0.5", features = ["cors"] }
tokio = { version = "1", features = ["full"] }
reqwest = { version = "0.12", default-features = false, features = ["json", "rustls-tls"] }
diesel = { version = "2", features = ["postgres", "r2d2", "chrono", "serde_json"] }
anyhow = "1"
argon2 = "0.5"
time = "0.3"
dotenv = "0.15"
tracing = "0.1"
tracing-subscriber = "0.3"
handlebars = "5"
mail-send = "0.4"
