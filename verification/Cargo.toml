[package]
name = "omock"
version = "0.1.0"
edition = "2021"
publish = false

[dependencies]
actix-service = "2"
actix-web = { version = "4", default-features = false, features = ["macros", "compress-gzip"] }
anyhow = "1"
chrono = { version = "0.4", default-features = false, features = ["clock", "std", "serde"] }
dashmap = "5"
env_logger = { version = "0.10", default-features = false }
futures-util = { version = "0.3", default-features = false, features = ["std"] }
handlebars = "4"
k8s-openapi = { version = "0.20", features = ["latest"] }
kube = { version = "0.87", default-features = false, features = ["client", "rustls-tls"] }
log = "0.4"
meval = "0.2"
num_cpus = "1"
prometheus = { version = "0.13", default-features = false }
rand = "0.8"
regex = "1"
reqwest = { version = "0.11", default-features = false, features = ["json"] }
serde = { version = "1", features = ["derive"] }
serde_json = "1"
tokio = { version = "1", features = ["rt-multi-thread", "macros", "time"] }
uuid = { version = "1", features = ["v4", "serde"] }
