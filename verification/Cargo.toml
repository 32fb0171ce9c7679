[package]
name = "azure_devops_artifacts"
version = "0.1.0"
edition = "2021"
publish = false

[dependencies]
azure_core = "0.21"
futures = "0.3"
serde_json = "1"
