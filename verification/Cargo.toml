[package]
name = "radiance"
version = "0.1.0"
edition = "2021"
publish = false

[dependencies]
x509-parser = "=0.18.1"
argon2 = "=0.5.3"
rustls-pemfile = "=2.2.0"
serde = { version = "=1.0.229", features = ["derive"] }
serde_json = "=1.0.154"
toml = "=1.1.8"
tokio = { version = "=1.54.1", features = ["rt-multi-thread", "macros", "net", "io-util", "fs", "sync", "time", "signal"] }
anyhow = "=1.0.104"
tracing = "=0.1.44"
tracing-subscriber = "=0.3.23"
dotenvy = "=0.15.7"
clap = { version = "=4.6.7", features = ["derive"] }
dashmap = "=6.2.1"
rand = "=0.9.5"
ulid = "=1.2.1"
lazy_static = "=1.5.1"
once_cell = "=1.21.4"
futures = "=0.3.34"
async-trait = "=0.1.92"
readpass = "=1.2.0"
rustls = { version = "=0.23.46", default-features = false, features = ["ring", "std"] }
