[package]
name = "drogue_server"
version = "0.1.0"
edition = "2021"
publish = false

[dependencies]
url = "2.5"
clap = "2.34"
log = "0.4"
env_logger = "0.11"
dotenv = "0.15"
stderrlog = "0.6"
anyhow = "1"
serde = { version = "1", features = ["derive"] }
futures = "0.3"
