[package]
name = "rustshare"
version = "0.1.0"
edition = "2021"
publish = false

[dependencies]
aes-gcm = "0.10"
pbkdf2 = "0.12"
hmac = "0.12"
sha2 = "0.10"
rand = "0.8"
actix-web = { version = "4", default-features = false, features = ["macros"] }
actix-multipart = "0.6"
futures-util = "0.3"
uuid = { version = "1", features = ["v4"] }
serde = { version = "1", features = ["derive"] }
tera = { version = "1", default-features = false }
chrono = "0.4"
env_logger = "0.10"
