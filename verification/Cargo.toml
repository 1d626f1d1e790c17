[package]
name = "binary-blog"
version = "0.1.0"
edition = "2021"
publish = false

[dependencies]
deflate = "1"
maud = "0.25"
mime_guess = "2"
pulldown-cmark = "0.9"
regex = "1"
time = { version = "0.3", features = ["formatting", "parsing"] }
axum = "0.6"
chrono = "0.4"
clap = { version = "4", features = ["derive", "cargo"] }
hyper = "0.14"
lazy_static = "1"
opentelemetry = "0.21"
opentelemetry-otlp = { version = "0.14", default-features = false, features = ["trace", "http-proto", "reqwest-client"] }
opentelemetry_sdk = { version = "0.21", features = ["rt-tokio"] }
reqwest = { version = "0.11", default-features = false }
rust-embed = "8"
tokio = { version = "1", features = ["macros", "rt-multi-thread"] }
tower-http = { version = "0.4", features = ["trace"] }
tracing = "0.1"
tracing-opentelemetry = "0.22"
tracing-subscriber = "0.3"

[dev-dependencies]
inflate = "0.4"
