[package]
name = "malina"
version = "0.1.0"
edition = "2021"
publish = false

[dependencies]
toml-span = "*"
regex = "*"
hadris-iso = "*"
base64 = "*"
serde = { version = "1", features = ["derive"] }
serde_json = "1"
serde_yaml = "*"
sysinfo = "*"
num_cpus = "*"
clap = { version = "4", features = ["derive"] }
clap_complete = "4"
miette = { version = "7", features = ["fancy"] }
thiserror = "*"
tokio = { version = "1", features = ["rt-multi-thread", "signal"] }
log = "*"
env_logger = "*"
owo-colors = "*"
tera = "1"
toml = "*"
virt = "*"
