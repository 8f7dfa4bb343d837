[package]
name = "rpc_transport"
version = "0.1.0"
edition = "2021"
publish = false

[dependencies]
futures = "0.3"
jsonrpsee = { version = "0.15", default-features = false, features = ["async-client", "jsonrpsee-types"] }
serde_json = { version = "1", features = ["raw_value"] }
