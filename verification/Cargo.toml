[package]
name = "live_docs"
version = "0.1.0"
edition = "2021"
publish = false

[dependencies]
axum = "*"
cargo_metadata = "*"
clap = { version = "*", features = ["derive"] }
log = "*"
notify = "*"
open = "*"
pretty-logging = "*"
tokio = { version = "*", features = ["rt-multi-thread", "macros", "net"] }
tower-http = { version = "*", features = ["fs"] }
