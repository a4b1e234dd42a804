[package]
name = "para_cli"
version = "0.1.0"
edition = "2021"
publish = false

[dependencies]
anyhow = "1"
clap = { version = "4", features = ["derive"] }
clap-verbosity-flag = "*"
confy = "*"
env_logger = "*"
fs_extra = "1"
indicatif = "*"
log = "0.4"
serde = { version = "1", features = ["derive"] }

[dev-dependencies]
assert_fs = "1"
predicates = "*"
