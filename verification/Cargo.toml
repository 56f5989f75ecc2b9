[package]
name = "darwin_rebuild"
version = "0.1.0"
edition = "2021"
publish = false

[dependencies]
serde_json = "*"
gethostname = "*"
clap = { version = "*", features = ["derive", "env"] }
clap_complete = "*"
subprocess = "*"
tempfile = "*"
color-eyre = "*"
log = "*"
pretty_env_logger = "*"
