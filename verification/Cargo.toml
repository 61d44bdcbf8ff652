[package]
name = "listener_binder"
version = "0.1.0"
edition = "2021"
publish = false

[dependencies]
num_cpus = "=1.17.0"
ntex = { version = "=2.18.0", features = ["tokio", "openssl"] }
ntex-cors = "=2.1.0"
nanocl_utils = { version = "=0.8.0", features = ["ntex"] }
openssl = "=0.10.81"
