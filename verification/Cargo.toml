[package]
name = "volcengine_rs"
version = "0.1.0"
edition = "2021"
publish = false

[dependencies]
base64 = "*"
chrono = "*"
clap = { version = "*", features = ["derive"] }
dotenv = "*"
env_logger = "*"
hex = "*"
hmac = "*"
log = "*"
reqwest = { version = "*", default-features = false, features = ["json", "rustls-tls"] }
serde = { version = "*", features = ["derive"] }
serde_json = "*"
serde_urlencoded = "*"
sha2 = "*"
tokio = { version = "*", features = ["macros", "rt-multi-thread"] }
url = "*"
