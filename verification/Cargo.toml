[package]
name = "aelita"
version = "0.1.0"
edition = "2021"
publish = false

[dependencies]
regex = "1"
url = "2"
hex = "0.4"
openssl = "0.10"
postgres = "0.19"
rusqlite = "0.29"
toml = "0.5"
serde = { version = "1", features = ["derive"] }
serde_json = "1"
hyper = { version = "0.14", features = ["full"] }
tokio = { version = "1", features = ["full"] }
log = "0.4"
env_logger = "0.10"
crossbeam = "0.8"
spmc = "0.3"
horrorshow = "0.8"
quick-error = "2"
mime = "0.3"
lazy_static = "1"
void = "1"
