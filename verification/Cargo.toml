[package]
name = "geoip_db"
version = "0.1.0"
edition = "2021"
publish = false

[dependencies]
flate2 = "1"
bzip2 = "0.4"
tar = "0.4"
xz2 = "0.1"
zip = { version = "0.6", default-features = false, features = ["deflate"] }
maxminddb = "*"
actix-web = "4"
actix-cors = "0.7"
tokio = { version = "1", features = ["rt-multi-thread", "macros", "signal", "time"] }
reqwest = "0.12"
env_logger = "0.11"
log = "0.4"
chrono = "0.4"
serde_json = "1"
