[package]
name = "mongo_collections"
version = "1.0.0"
edition = "2021"
publish = false

[dependencies]
anyhow = "1"
config = { version = "*", default-features = false, features = ["toml"] }
env_logger = { version = "*", default-features = false }
futures = "0.3"
generic-builders = "*"
k8s-openapi = { version = "*", features = ["latest"] }
kube = { version = "*", features = ["runtime", "derive"] }
kube-operator-util = "*"
log = "0.4"
mongodb = "*"
rustls = { version = "*", default-features = false, features = ["ring", "std"] }
schemars = "*"
serde = { version = "1", features = ["derive"] }
serde_json = "1"
serde_repr = "*"
thiserror = "*"
tokio = { version = "1", features = ["macros", "rt-multi-thread", "time"] }
