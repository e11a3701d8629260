[package]
name = "mongo_es"
version = "0.1.0"
edition = "2021"
publish = false

[dependencies]
mongodb = "=3.9.1"
cqrs-es = "=0.4.12"
serde_json = "=1.0.154"
futures = "=0.3.34"
tokio = { version = "=1.54.1", features = ["rt", "macros"] }
async-trait = "=0.1.92"
log = "=0.4.35"
