[package]
name = "coinbase_agent_kit_blueprint"
version = "0.1.0"
edition = "2021"
publish = false

[dependencies]
dotenv = "0.15"
phala-tee-deploy-rs = "*"
reqwest = { version = "0.12", default-features = false, features = ["json"] }
serde = { version = "1", features = ["derive"] }
serde_json = "1"
serde_yaml = "0.9"
tokio = { version = "1", features = ["macros", "net", "process", "rt", "rt-multi-thread", "time"] }
url = "2"
uuid = { version = "1", features = ["v4"] }
