[package]
name = "ippper"
version = "0.1.0"
edition = "2021"
publish = false

[dependencies]
anyhow = "=1.0.104"
async-compression = { version = "=0.4.51", features = ["futures-io", "gzip"] }
bytes = "=1.12.1"
futures = "=0.3.34"
http = "=1.5.0"
http-body = "=1.1.0"
hyper = { version = "=1.12.0", features = ["http1", "http2", "server"] }
hyper-util = { version = "=0.1.21", features = ["server-auto", "tokio"] }
ipp = { version = "=5.4.0", default-features = false, features = ["async"] }
log = "=0.4.34"
moka = { version = "=0.12.16", features = ["sync"] }
num-traits = "=0.2.19"
pin-project-lite = "=0.2.17"
rustls-pemfile = "2"
thiserror = "=1.0.69"
tokio = { version = "=1.54.1", features = ["net", "rt"] }
tokio-rustls = "0.26"
uuid = "=1.29.0"
