[package]
name = "restoai"
version = "0.1.0"
edition = "2021"
publish = false

[dependencies]
tokio = { version = "=1.53.2", features = ["sync", "rt-multi-thread", "macros"] }
rand = "=0.8.8"
actix-web = "=4.15.0"
actix-web-httpauth = "=0.8.3"
async-stream = "=0.3.6"
clap = { version = "=4.6.7", features = ["derive"] }
dotenv = "=0.15.0"
env_logger = "=0.11.11"
log = "=0.4.34"
openai_dive = { version = "=1.4.3", features = ["stream"] }
parking_lot = "=0.12.5"
pickledb = "=0.5.1"
serde = { version = "=1.0.229", features = ["derive"] }
serde_json = "=1.0.151"
toml = "=1.1.7"
futures-util = "=0.3.34"
