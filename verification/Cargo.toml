[package]
name = "notary"
version = "0.1.0"
edition = "2021"
publish = false

[dependencies]
anyhow = "=1.0.104"
base64 = "=0.13.1"
blake3 = "=1.8.7"
byteorder = "=1.5.0"
chrono = { version = "=0.4.45", features = ["serde"] }
config = "=0.11.0"
diesel = { version = "=1.4.8", features = ["postgres", "r2d2", "chrono"] }
ed25519-dalek = { version = "=1.0.1", features = ["serde"] }
log = "=0.4.34"
pretty_env_logger = "=0.4.0"
r2d2 = "=0.8.10"
rand = "=0.7.3"
serde = { version = "=1.0.229", features = ["derive"] }
serde_json = "=1.0.154"
tokio = { version = "=1.54.1", features = ["macros", "rt-multi-thread"] }
warp = "=0.3.7"
