[package]
name = "authgate"
version = "0.1.0"
edition = "2021"
publish = false

[dependencies]
serde = { version = "1", features = ["derive"] }
serde_json = "1"
jsonwebtoken = "9"
base64 = "0.22"
bcrypt = "0.15"
aes-gcm = "0.10"
chrono = "0.4"
reqwest = { version = "0.12", default-features = false, features = ["json", "rustls-tls"] }
tokio = { version = "1", features = ["rt-multi-thread", "macros"] }
sqlx = { version = "0.6", default-features = false, features = ["runtime-tokio-rustls", "mssql"] }

[dev-dependencies]
rsa = "0.9"
rand = "0.8"
