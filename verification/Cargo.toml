[package]
name = "adapter_schema"
version = "0.1.0"
edition = "2021"
publish = false

[dependencies]
chrono = { version = "0.4", default-features = false, features = ["std", "clock"] }
hashbrown = "0.14"
indexmap = "2"
schemars = { version = "0.8", default-features = false }
serde_json = "1"
time = "0.3"
