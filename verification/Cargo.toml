[package]
name = "dadmin"
version = "0.1.0"
edition = "2021"
publish = false

[dependencies]
anyhow = "1"
color-backtrace = "*"
log = "0.4"
pretty_env_logger = "*"
reqwest = { version = "*", default-features = false, features = ["blocking", "json"] }
serde = { version = "1", features = ["derive"] }
structopt = "0.3"
