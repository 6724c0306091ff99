[package]
name = "rustlings"
version = "5.5.1"
edition = "2021"
publish = false

[dependencies]
argh = "=0.1.19"
console = "=0.15.11"
glob = "=0.3.4"
indicatif = "0.17"
notify = "=4.0.18"
serde = { version = "=1.0.229", features = ["derive"] }
serde_json = "=1.0.154"
tokio = { version = "=1.54.1", features = ["rt-multi-thread", "macros"] }
toml = "=0.5.11"

[dev-dependencies]
regex = "=1.13.1"
