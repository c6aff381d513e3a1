[package]
name = "omny"
version = "0.1.0"
edition = "2021"
publish = false

[dependencies]
anyhow = "=1.0.104"
bytes = "=1.12.1"
compact_str = { version = "=0.10.0", features = ["serde"] }
csv = "=1.4.0"
geojson = "=1.0.0"
gtfs-structures = { version = "=0.52.0", default-features = false }
itertools = "=0.15.0"
reqwest = { version = "=0.12.28", default-features = false, features = ["rustls-tls"] }
rgb = "=0.8.53"
serde = { version = "=1.0.229", features = ["derive"] }
serde_json = "=1.0.154"
tokio = { version = "=1.54.1", features = ["fs", "io-util", "macros", "rt-multi-thread"] }
tracing = "=0.1.44"
tracing-subscriber = "=0.3.23"
warp = "=0.3.7"
