[package]
name = "charlotte"
version = "0.1.0"
edition = "2021"
publish = false

[dependencies]
hyper = { version = "=1.12.0", features = ["http1", "server", "client"] }
hyper-util = { version = "=0.1.21", features = ["tokio"] }
http-body-util = "=0.1.5"
tokio = { version = "=1.54.1", features = ["full"] }
tokio-rustls = { version = "=0.26.6", default-features = false, features = ["ring", "tls12", "logging"] }
rustls = { version = "=0.23.46", default-features = false, features = ["ring", "std", "tls12", "logging"] }
webpki-roots = "=1.0.10"
rcgen = { version = "=0.14.10", default-features = false, features = ["crypto", "pem", "ring", "x509-parser"] }
serde = "=1.0.229"
serde_json = { version = "=1.0.154", features = ["preserve_order"] }
textwrap = "=0.16.4"
ratatui = "=0.30.2"
crossterm = { version = "=0.29.0", features = ["event-stream"] }
tokio-stream = "=0.1.19"
clap = { version = "=4.6.7", features = ["derive"] }
anyhow = "=1.0.104"
thiserror = "=2.0.21"
arboard = { version = "=3.7.0", default-features = false }
tracing = "=0.1.44"
tracing-appender = "=0.2.5"
tracing-subscriber = "=0.3.23"
