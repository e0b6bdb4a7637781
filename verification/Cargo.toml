[package]
name = "hass_mqtt"
version = "0.1.0"
edition = "2021"
publish = false

[dependencies]
generational-arena = "=0.2.9"
slug = "=0.1.6"
dirs = "=5.0.1"
serde = { version = "=1.0.229", features = ["derive"] }
serde_json = "=1.0.154"
thiserror = "=1.0.69"
convert_case = "=0.6.0"
tokio = { version = "=1.54.1", default-features = false, features = ["sync", "rt", "macros"] }
flume = "=0.11.1"
futures = "=0.3.34"
async-trait = "=0.1.92"
syn = { version = "=2.0.119", features = ["full"] }
proc-macro2 = "=1.0.107"
quote = "=1.0.47"
