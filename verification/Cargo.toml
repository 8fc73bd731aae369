[package]
name = "samwise"
version = "0.1.0"
edition = "2021"
publish = false

[dependencies]
anyhow = "=1.0.104"
pnet = "=0.35.0"
prost = "=0.13.5"
serde = { version = "=1.0.229", features = ["derive"] }
structopt = "=0.3.26"
tokio = { version = "=1.53.2", features = ["full"] }
toml = "=1.1.7"
tonic = "=0.13.1"
warp = "=0.3.7"
