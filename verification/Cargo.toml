[package]
name = "ws_ide"
version = "0.1.0"
edition = "2021"
publish = false

[dependencies]
regex = "1"
jwt = "0.16"
hmac = "0.12"
sha2 = "0.10"
bcrypt = "*"
urlencoding = "2"
serde = { version = "1", features = ["derive"] }
serde_json = "1"
chrono = "0.4"
tokio = { version = "1", features = ["full"] }
axum = "0.8"
axum-extra = { version = "*", features = ["typed-header"] }
headers = "*"
socketioxide = "*"
bollard = "*"
sea-orm = { version = "1.1", default-features = false, features = ["macros", "with-chrono", "sqlx-postgres", "runtime-tokio-rustls"] }
sea-orm-migration = { version = "1.1", default-features = false, features = ["sqlx-postgres", "runtime-tokio-rustls"] }
async-trait = "0.1"
nix = "0.26"
futures-util = "0.3"
tower = "0.5"
tower-http = { version = "0.6", features = ["cors", "trace"] }
tower-cookies = "*"
dotenv = "0.15"
lettre = "0.11"
log = "0.4"
tracing = "0.1"
