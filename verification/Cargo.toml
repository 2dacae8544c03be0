[package]
name = "bsondump"
version = "0.1.0"
edition = "2021"
publish = false

[dependencies]
bson = { version = "=3.1.0", features = ["serde", "serde_json-1"] }
clap = { version = "=4.6.7", features = ["derive"] }
clap-verbosity-flag = "=3.0.4"
env_logger = "=0.11.11"
log = "=0.4.34"
serde = "=1.0.229"
serde_json = "=1.0.151"
