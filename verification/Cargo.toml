[package]
name = "tetra"
version = "0.1.0"
edition = "2021"
publish = false

[dependencies]
derive-where = "1"
dotenv = "0.15"
envy = "0.4"
futures = "0.3"
serde = { version = "1", features = ["derive"] }
thiserror = "2"
tokio = { version = "1", features = ["macros", "rt-multi-thread", "signal"] }
tower = { version = "0.5", features = ["util"] }
tracing = "0.1"
tracing-subscriber = { version = "0.3", features = ["env-filter"] }
twilight-gateway = "0.16"
twilight-http = "0.16"
twilight-interactions = "0.16"
twilight-model = "0.16"
twilight-util = { version = "0.16", features = ["builder"] }
