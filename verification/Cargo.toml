[package]
name = "az_dbx_pat"
version = "0.1.0"
edition = "2021"
publish = false

[dependencies]
azure_identity = "0.20"
clap = "3.2"
reqwest = { version = "0.12", features = ["json"] }
serde = { version = "1", features = ["derive"] }
tokio = { version = "1", features = ["macros", "rt-multi-thread"] }

[dev-dependencies]
serde_json = "1"
