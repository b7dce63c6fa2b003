[package]
name = "pg_documentdb_gw"
version = "0.1.0"
edition = "2021"
publish = false

[dependencies]
dashmap = "6"
either = "1"
openssl = "0.10"
socket2 = { version = "0.5", features = ["all"] }
tokio = { version = "1", features = ["io-util", "macros", "net", "rt", "rt-multi-thread", "sync", "time"] }
tokio-openssl = "0.6"
tokio-postgres = "0.7"
tokio-util = "0.7"
tracing = "0.1"
uuid = { version = "1", features = ["v4"] }
