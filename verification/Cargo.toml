[package]
name = "tls_termination"
version = "0.1.0"
edition = "2021"
publish = false

[dependencies]
futures-util = { version = "=0.3.34", default-features = false }
hyper = { version = "=0.14.32", default-features = false, features = ["server", "tcp", "http1", "http2"] }
rustls-pemfile = "=2.2.0"
tokio = { version = "=1.54.1", features = ["net"] }
tokio-rustls = "=0.25.0"

[dev-dependencies]
pem = "3"
rand_core = { version = "0.6", features = ["getrandom"] }
rcgen = "0.13"
rsa = "0.9"
