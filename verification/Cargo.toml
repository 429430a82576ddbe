[package]
name = "unit_conversion_api"
version = "0.1.0"
edition = "2021"
publish = false

[dependencies]
actix-web = { version = "4", default-features = false, features = ["macros"] }
config = { version = "*", default-features = false, features = ["toml"] }
dotenv = "0.15"
env_logger = "*"
log = "0.4"
once_cell = "1"
serde = { version = "1", features = ["derive"] }
serde_json = "1"
thiserror = "1"
