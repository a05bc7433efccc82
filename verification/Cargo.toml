[package]
name = "asset_server"
version = "0.1.0"
edition = "2021"
publish = false

[dependencies]
dirs = "*"
actix-web = "*"
actix-files = "*"
actix-session = { version = "*", features = ["cookie-session"] }
anyhow = "*"
log = "*"
log4rs = "*"
serde = { version = "*", features = ["derive"] }
serde_json = "*"
thiserror = "*"
tokio = { version = "*", features = ["macros", "rt-multi-thread"] }
