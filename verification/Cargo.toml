[package]
name = "backend"
version = "0.1.0"
edition = "2021"
publish = false

[dependencies]
base64 = "=0.22.1"
heck = "=0.5.0"
rand = "=0.10.3"
tinystr = "=0.8.5"
uuid = { version = "=1.29.0", features = ["v4", "v7"] }
wildmatch = "=2.7.0"
serde = { version = "=1.0.229", features = ["derive"] }
chrono = { version = "=0.4.45", features = ["serde"] }
jsonwebtoken = "=9.3.1"
tokio = { version = "=1.54.1", features = ["sync", "rt", "macros"] }
tower-http = { version = "=0.6.11", features = ["cors"] }
http = "=1.5.0"
tonic = { version = "=0.14.9", default-features = false }
config = { version = "0.15", default-features = false, features = ["yaml"] }
humantime-serde = "1"
byte-unit = { version = "5", features = ["serde"] }
secrecy = { version = "0.10", features = ["serde"] }
