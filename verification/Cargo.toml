[package]
name = "baby_actor"
version = "0.1.0"
edition = "2021"
publish = false

[dependencies]
baby-emulator = "=0.2.2"
base64 = "=0.23.1"
tokio = { version = "=1.53.2", features = ["macros", "rt-multi-thread", "sync", "time"] }
warp = { version = "=0.4.3", features = ["server"] }
serde = { version = "=1.0.229", features = ["derive"] }
serde_json = "=1.0.151"
mosquitto-rs = "=0.11.2"
dotenv = "=0.15.0"
log = "=0.4.34"
pretty_env_logger = "=0.5.0"
anyhow = "=1.0.104"
