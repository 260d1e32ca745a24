[package]
name = "actix_jwt_api"
version = "0.1.0"
edition = "2021"
publish = false

[dependencies]
bcrypt = "=0.19.3"
totp-rs = { version = "=5.7.2", features = ["qr", "otpauth"] }
base64 = "=0.22.1"
base32 = "=0.5.1"
validator = "=0.21.0"
regex = "=1.13.1"
rand = "=0.9.5"
chrono = { version = "=0.4.45", features = ["serde"] }
serde = { version = "=1.0.229", features = ["derive"] }
serde_json = { version = "=1.0.154", features = ["preserve_order"] }
jsonwebtoken = "=9.3.1"
actix-web = "=4.18.1"
actix-multipart = "=0.7.2"
diesel = { version = "=2.2.12", features = ["postgres", "chrono"] }
diesel-async = { version = "=0.5.2", features = ["postgres"] }
diesel_migrations = { version = "=2.2.0", features = ["postgres"] }
futures-util = "=0.3.34"
redis = { version = "=1.8.1", features = ["tokio-comp"] }
lettre = "=0.11.23"
reqwest = { version = "=0.12.28", features = ["json"] }
lazy_static = "=1.5.1"
dotenvy_macro = "=0.15.7"
