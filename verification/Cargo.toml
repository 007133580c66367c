[package]
name = "fnord_status"
version = "0.1.0"
edition = "2021"
publish = false

[dependencies]
tokio = { version = "=1.53.2", features = ["full"] }
actix-web = "=4.15.0"
actix-cors = "=0.7.2"
actix-governor = "=0.10.0"
clap = { version = "=4.6.7", features = ["derive"] }
env_logger = "=0.11.11"
futures = "=0.3.34"
log = "=0.4.34"
megalodon = "=1.3.0"
serde = { version = "=1.0.229", features = ["derive"] }
serde_json = "=1.0.151"
spaceapi = "=0.9.0"
takecell = "=0.1.1"
teloxide = "=0.17.0"
toml = "=1.1.7"
