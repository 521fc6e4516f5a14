[package]
name = "command_gateway"
version = "0.1.0"
edition = "2021"
publish = false

[dependencies]
dotenv = "0.15"
env_logger = "0.9"
hyper = { version = "0.14", features = ["full"] }
log = "0.4"
rand = "0.8"
routerify = "2"
serde = { version = "1", features = ["derive"] }
serde_json = "1"
thiserror = "1"
tokio = { version = "1", features = ["rt-multi-thread", "macros"] }
