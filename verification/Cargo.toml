[package]
name = "pwgen2"
version = "0.1.0"
edition = "2021"
publish = false

[dependencies]
rand = "=0.9.5"
bcrypt = "=0.19.3"
pbkdf2 = { version = "=0.12.2", features = ["simple"] }
sha-crypt = "=0.5.0"
anyhow = "=1.0.104"
clap = "=4.6.7"
crossbeam = "=0.8.5"
serde_json = "=1.0.151"
tokio = { version = "=1.53.2", features = ["macros", "rt-multi-thread"] }
