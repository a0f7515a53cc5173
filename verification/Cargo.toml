[package]
name = "ddns"
version = "0.1.0"
edition = "2021"
publish = false

[dependencies]
anyhow = "1"
async-trait = "0.1"
env_logger = "0.7"
log = "0.4"
rusoto_core = "0.45"
rusoto_route53 = "0.45"
serde = { version = "1", features = ["derive"] }
structopt = "0.3"
tokio = { version = "0.2", features = ["macros", "rt-threaded"] }
toml = "0.5"
trust-dns-resolver = "0.19"
