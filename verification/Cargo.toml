[package]
name = "agglayer_core"
version = "0.1.0"
edition = "2021"
publish = false

[dependencies]
ethers-core = "2"
hex = "0.4"
chrono = "0.4"
serde = { version = "1", features = ["derive"] }
serde_json = "1"
tokio = { version = "1", features = ["rt", "rt-multi-thread", "time", "sync", "macros"] }
jsonrpsee = { version = "0.22", features = ["server", "macros"] }
async-trait = "0.1"
futures = "0.3"
tower = "0.4"
tower-http = { version = "0.4", features = ["cors"] }
hyper = "0.14"

[dev-dependencies]
k256 = { version = "0.13", features = ["ecdsa"] }
