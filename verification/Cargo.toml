[package]
name = "reveleitor"
version = "0.1.0"
edition = "2021"
publish = false

[dependencies]
itertools = "=0.10.5"
rand = "=0.7.3"
seed = "=0.10.0"
zip = { version = "=2.6.1", default-features = false, features = ["deflate"] }
serde_json = "=1.0.154"
tokio = { version = "=1.54.1", features = ["full"] }
warp = "=0.3.7"
hyper = { version = "=0.14.32", features = ["full"] }
hyper-tls = "=0.5.0"
