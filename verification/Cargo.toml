[package]
name = "ekiden_client"
version = "0.1.0"
edition = "2021"
publish = false

[dependencies]
failure = "0.1"
futures = "0.1"
futures-cpupool = "0.1"
grpcio = "0.4"
rustracing = "*"
rustracing_jaeger = "*"
serde = { version = "1", features = ["derive"] }
serde_cbor = "0.11"
sha2 = "0.10"
