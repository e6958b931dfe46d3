[package]
name = "scope_loadgen"
version = "0.1.0"
edition = "2021"
publish = false

[dependencies]
futures = "0.3"
prost = "0.13"
pravega-client = "*"
pravega-client-config = "*"
pravega-client-shared = "*"
tokio = { version = "1", features = ["rt-multi-thread", "sync", "time"] }
tonic = "0.12"
