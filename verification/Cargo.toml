[package]
name = "silo"
version = "0.1.0"
edition = "2021"
publish = false

[dependencies]
actix = "*"
actix-cors = "*"
actix-rt = "*"
actix-web = "*"
async-trait = "*"
futures = "*"
log = "*"
pretty_env_logger = "*"
pyo3 = "*"
serde = { version = "*", features = ["derive"] }
serde_repr = "*"
tokio = { version = "*", features = ["full"] }
