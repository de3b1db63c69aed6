[package]
name = "tokio_lite"
version = "0.1.0"
edition = "2021"
publish = false

[dependencies]
mio = { version = "=1.2.4", features = ["os-poll", "net"] }
slab = "=0.4.12"
futures = "=0.3.34"
tracing = "0.1"
tracing-subscriber = { version = "0.3", features = ["env-filter", "fmt"] }
metrics = "0.24"
