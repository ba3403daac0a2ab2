[package]
name = "shim_core"
version = "0.1.0"
edition = "2021"
publish = false

[dependencies]
prost = "=0.7.0"
prost-types = "=0.7.0"
serde = { version = "=1.0.229", features = ["derive"] }
serde_json = "=1.0.154"
libc = "=0.2.191"
log = "=0.4.35"
tokio = { version = "=1.54.1", features = ["full"] }
futures = "=0.3.34"
lazy_static = "=1.5.1"
async-trait = "=0.1.92"
signal-hook-tokio = { version = "=0.4.0", features = ["futures-v0_3"] }
command-fds = "=0.3.3"
oci-spec = "=0.10.0"
k8s-cri = "=0.3.0"
