[package]
name = "dyn_cfg"
version = "0.1.0"
edition = "2021"
publish = false

[dependencies]
parse_duration = "2"
faststr = "0.2"
futures = "0.3"
tokio = { version = "1", features = ["sync", "time", "rt", "macros"] }
mini-moka = "0.10"
serde = { version = "1", features = ["derive"] }
serde_json = "1"
thiserror = "2"
anyhow = "1"
tracing = "0.1"
syn = { version = "2", features = ["full"] }
quote = "1"
proc-macro2 = "1"
