[package]
name = "netssh_core"
version = "0.1.0"
edition = "2021"
publish = false

[dependencies]
regex = "=1.13.1"
serde = { version = "=1.0.229", features = ["derive"] }
serde_json = "=1.0.154"
indexmap = { version = "=2.14.2", features = ["serde"] }
ssh2 = "=0.9.6"
tokio = { version = "=1.54.1", features = ["rt-multi-thread", "macros", "time", "sync"] }
tracing = "=0.1.44"
tracing-subscriber = { version = "=0.3.23", features = ["env-filter"] }
async-trait = "=0.1.92"
thiserror = "=1.0.69"
chrono = "=0.4.45"
rand = "=0.8.8"
log = "=0.4.35"
lazy_static = "=1.5.1"
parking_lot = "=0.12.5"
actix-web = "=4.18.1"
# Reads settings files written in TOML (load_from_toml in app/settings_io.rs);
# the library itself never parses TOML.
toml = "=0.8.23"
