[package]
name = "amqp_tools"
version = "0.1.0"
edition = "2021"
publish = false

[dependencies]
lapin = { version = "2", default-features = false }
joinery = "*"
clap = { version = "4", features = ["derive", "env"] }
dotenv = "0.15"
requestty = "0.5"
tokio = { version = "1", features = ["full"] }
tokio-executor-trait = "2"
tokio-reactor-trait = "1"
tracing = "0.1"
tracing-subscriber = "0.3"
anyhow = "1"
