[package]
name = "temporal_workflow_interface"
version = "0.1.0"
edition = "2021"
publish = false

[dependencies]
anyhow = "=1.0.104"
prost = "=0.11.9"
wasmer = { version = "=6.1.0", features = ["singlepass"] }
tokio = { version = "=1.54.1", features = ["sync"] }
crossbeam = "=0.8.5"
serde = { version = "=1.0.229", features = ["derive"] }
serde_bytes = "=0.11.19"
fp-bindgen = { version = "=1.0.0", features = ["generators"] }
