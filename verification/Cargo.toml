[package]
name = "plotters_gpui"
version = "0.1.0"
edition = "2021"
publish = false

[dependencies]
plotters-backend = "0.3"
tracing = "0.1"

[dev-dependencies]
plotters = { version = "0.3", default-features = false, features = ["line_series"] }
