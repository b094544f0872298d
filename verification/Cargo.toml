[package]
name = "operaton_task_worker"
version = "0.1.0"
edition = "2021"
publish = false

[dependencies]
serde_json = "1"
serde = { version = "1", features = ["derive"] }
reqwest = { version = "0.12", default-features = false }
tokio = { version = "1", features = ["rt-multi-thread", "time"] }
url = { version = "2", features = ["serde"] }
config = { version = "0.14", default-features = false }
log = "0.4"
env_logger = "0.11"
