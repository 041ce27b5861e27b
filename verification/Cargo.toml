[package]
name = "emulator"
version = "0.1.0"
edition = "2021"
publish = false

[dependencies]
ttl_cache = "0.5"
tokio = { version = "1", features = ["full"] }
bytes = "1"
libc = "0.2"
pnet = "*"
serde = { version = "1", features = ["derive"] }
serde_json = "1"
toml = "*"
chrono = "0.4"
rand = "0.8"
modular-bitfield-msb = "*"
