[package]
name = "body_metrics"
version = "0.1.0"
edition = "2021"
publish = false

[dependencies]
axum = "0.6"
bytes = "1"
futures = "0.3"
futures-core = "0.3"
futures-util = "0.3"
http = "0.2"
http-body = "0.4"
hyper = { version = "0.14", features = ["server", "http1", "tcp"] }
pin-project-lite = "0.2"
serde_json = "1"
tokio = { version = "1", features = ["macros", "rt-multi-thread"] }
tower = "0.4"
tower-http = { version = "0.4", features = ["trace"] }
