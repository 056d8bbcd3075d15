[package]
name = "procedure_registry"
version = "0.1.0"
edition = "2021"
publish = false

[dependencies]
specta = { version = "=2.0.0-rc.7", features = ["typescript", "serde_json"] }
serde_json = "=1.0.154"
