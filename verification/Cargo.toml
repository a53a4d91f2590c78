[package]
name = "opsline"
version = "0.1.0"
edition = "2021"
publish = false

[dependencies]
clap = { version = "=4.6.7", features = ["cargo"] }
env_logger = "=0.11.11"
figment = { version = "=0.10.19", features = ["yaml"] }
git2 = { version = "=0.21.0", default-features = false }
k8s-openapi = { version = "=0.27.1", features = ["latest"] }
kube = { version = "=3.1.0", default-features = false, features = ["config"] }
libc = "=0.2.191"
log = "=0.4.34"
serde = { version = "=1.0.229", features = ["derive"] }
ureq = { version = "=3.5.0", features = ["json"] }
