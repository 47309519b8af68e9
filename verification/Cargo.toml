[package]
name = "prometheus_metric_example"
version = "0.1.0"
edition = "2021"
publish = false

[dependencies]
axum = "=0.8.9"
axum-prometheus = "=0.10.1"
tokio = { version = "=1.54.1", features = ["macros", "net", "rt-multi-thread"] }
tower-http = { version = "=0.7.1", features = ["trace"] }
tracing = "=0.1.44"
tracing-subscriber = { version = "=0.3.23", features = ["env-filter"] }

[dev-dependencies]
tower = { version = "=0.5.3", features = ["util"] }
