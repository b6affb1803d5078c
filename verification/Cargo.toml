[package]
name = "ocpp_central"
version = "0.1.0"
edition = "2021"
publish = false

[dependencies]
chrono = "=0.4.45"
clap = { version = "=4.6.7", features = ["derive"] }
ftail = "=0.3.1"
log = "=0.4.35"
md5 = "=0.8.1"
reqwest = { version = "=0.12.28", default-features = false, features = ["blocking", "json", "rustls-tls"] }
rusqlite = { version = "=0.41.1", features = ["bundled"] }
rust_decimal = "=1.43.0"
rust-ocpp = { version = "=3.0.4", features = ["v1_6", "v2_0_1"] }
serde = { version = "=1.0.229", features = ["derive"] }
serde_json = "=1.0.154"
serde_repr = "=0.1.21"
sha2 = "=0.10.9"
toml = "=1.1.8"
tungstenite = "=0.30.0"
uom = { version = "=0.38.0", features = ["use_serde"] }
uuid = { version = "=1.29.0", features = ["v4"] }
