[package]
name = "mbtiles_gateway"
version = "0.1.0"
edition = "2021"
publish = false

[dependencies]
sanitize-filename = "*"
actix-web = "*"
actix-cors = "*"
clap = "*"
derive_more = { version = "*", features = ["display", "error"] }
env_logger = "*"
log = "*"
pyo3 = "*"
pyo3-ffi = "*"
sqlite = "*"
tokio = { version = "*", features = ["fs"] }
tokio-util = { version = "*", features = ["io"] }
