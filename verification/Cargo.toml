[package]
name = "rudo"
version = "0.1.0"
edition = "2021"
publish = false

[dependencies]
jmespatch = { version = "=0.3.0", features = ["sync"] }
regex = "=1.13.1"
mailchecker = "=6.0.21"
parse_duration = "=2.1.1"
phonenumber = "=0.3.10"
chrono = "=0.4.45"
serde = { version = "=1.0.229", features = ["derive"] }
serde_json = "=1.0.151"
config = "=0.15.27"
notify = "=8.2.0"
log = "*"
env_logger = "*"
actix-web = "=4.15.0"
