[package]
name = "cosmic_clevetura"
version = "0.1.0"
edition = "2021"
publish = false

[dependencies]
base64 = "0.22"
crc32fast = "1"
prost = "0.13"
serde = { version = "1", features = ["derive"] }
serde_json = "1"
dirs = "5"
hidapi = "2"
btleplug = "0.11"
tokio = { version = "1", features = ["rt-multi-thread", "time", "macros"] }
futures = "0.3"
uuid = "1"
