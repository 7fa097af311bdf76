[package]
name = "edge_cdn_store"
version = "0.1.0"
edition = "2021"
publish = false

[dependencies]
async-trait = "=0.1.92"
bytes = "=1.12.1"
futures-util = "=0.3.34"
mime_guess = "=2.0.5"
pingora = { version = "=0.6.0", features = ["proxy"] }
pingora-cache = "=0.6.0"
pingora-core = "=0.6.0"
pingora-error = "=0.6.0"
prometheus = "=0.14.0"
serde = { version = "=1.0.229", features = ["derive"] }
serde_json = "=1.0.154"
tokio = { version = "=1.54.1", features = ["full"] }
tracing = "=0.1.44"
tracing-subscriber = { version = "=0.3.23", features = ["env-filter"] }
urlencoding = "=2.1.3"
warp = { version = "=0.4.3", features = ["server"] }
