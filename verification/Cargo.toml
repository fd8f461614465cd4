[package]
name = "hiraku_engine"
version = "0.1.0"
edition = "2021"
publish = false

[dependencies]
blake3 = "=1.8.7"
rhai = { version = "=1.27.0", features = ["internals"] }
serde = { version = "=1.0.229", features = ["derive"] }
thiserror = "=2.0.21"
rand = "=0.10.3"
rand_pcg = "=0.10.2"
