[package]
name = "helm_templexer"
version = "0.1.0"
edition = "2021"
publish = false

[dependencies]
anyhow = "=1.0.104"
env_logger = "=0.11.11"
format_serde_error = "=0.3.0"
indexmap = "=2.14.2"
log = "=0.4.34"
regex = "=1.13.1"
serde = { version = "=1.0.229", features = ["derive"] }
serde_yaml = "=0.8.26"
structopt = "=0.3.26"
structopt-flags = "=0.3.6"
subprocess = "=1.2.1"
