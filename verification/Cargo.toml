[package]
name = "prgnome"
version = "0.1.0"
edition = "2021"
publish = false

[dependencies]
rust-crypto = "=0.2.36"
hex = "=0.4.3"
serde_json = "=1.0.151"
jsonwebtoken = { version = "=11.1.0", features = ["rust_crypto"] }
rsa = "=0.9.10"
actix-web = { version = "*", default-features = false }
dotenv = "*"
env_logger = "*"
listenfd = "*"
log = "*"
mime = "*"
reqwest = { version = "*", default-features = false, features = ["blocking", "json"] }
serde = { version = "*", features = ["derive"] }
structopt = "*"
