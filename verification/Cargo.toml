[package]
name = "etcdrs"
version = "0.1.0"
edition = "2021"
publish = false

[dependencies]
tonic = "*"
prost = "*"
bytes = "*"
tokio = { version = "*", features = ["sync", "time", "rt", "macros"] }
futures = "*"
futures-core = "*"
async-stream = "*"
rand = "*"
etcd-bin-vendored = "*"
