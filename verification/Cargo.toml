[package]
name = "tentech_api"
version = "0.1.0"
edition = "2021"
publish = false

[dependencies]
base64 = "=0.23.1"
chrono = "=0.4.45"
diesel = { version = "=2.3.14", features = ["postgres", "uuid"] }
dotenv = "=0.15.0"
fernet = { version = "=0.2.2", default-features = false, features = ["rustcrypto", "fernet_danger_timestamps"] }
lettre = "=0.11.23"
percent-encoding = "=2.3.2"
regex = "=1.13.1"
rocket = { version = "=0.5.2", features = ["json"] }
rocket_cors = "=0.6.0"
rocket_sync_db_pools = { version = "=0.1.0", features = ["diesel_postgres_pool"] }
rusoto_core = "=0.48.0"
rusoto_s3 = "=0.48.0"
rust-crypto = "=0.2.36"
serde = { version = "=1.0.229", features = ["derive"] }
serde_json = "=1.0.154"
uuid = { version = "=1.29.0", features = ["v4", "serde"] }
validator = "=0.21.0"
