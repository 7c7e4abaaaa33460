[package]
name = "network_metrics"
version = "0.1.0"
edition = "2021"
publish = false

[dependencies]
log = "*"
metricator = "*"
monotonic-time-rs = "*"
