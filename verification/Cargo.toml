[package]
name = "nodara"
version = "0.1.0"
edition = "2021"
publish = false

[dependencies]
rayon = "=1.12.0"
parity-scale-codec = { version = "=3.7.5", features = ["derive"] }
sp-io = "=49.0.0"
clap = { version = "=4.6.7", features = ["derive"] }
tokio = { version = "=1.54.1", features = ["macros", "rt-multi-thread", "time"] }
tracing = "=0.1.44"
tracing-subscriber = "=0.3.23"
env_logger = "=0.11.11"
hyper = { version = "=0.14.32", features = ["server", "http1", "tcp"] }
prometheus = { version = "=0.13.4", default-features = false }
lazy_static = "=1.5.1"
