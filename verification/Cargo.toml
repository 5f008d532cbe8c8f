[package]
name = "copycat_code"
version = "0.1.0"
edition = "2021"
publish = false

[dependencies]
actix-session = { version = "0.10", features = ["cookie-session"] }
actix-web = { version = "4", default-features = false, features = ["macros", "cookies", "secure-cookies"] }
anyhow = "1"
base64ct = { version = "1", features = ["alloc"] }
env_logger = { version = "0.11", default-features = false }
serde = { version = "1", features = ["derive"] }
whirlpool = "0.10"
