[package]
name = "azure_sql_tco"
version = "0.1.0"
edition = "2021"
publish = false

[dependencies]
rust_decimal = "=1.43.0"
time = { version = "=0.3.55", features = ["parsing", "formatting"] }
uuid = { version = "=1.29.0", features = ["v4"] }
sha2 = "=0.10.9"
reqwest = { version = "=0.12.28", default-features = false }
serde = { version = "=1.0.229", features = ["derive"] }
serde_json = "=1.0.154"
thiserror = "=2.0.21"
axum = "=0.8.9"
tokio = { version = "=1.54.1", features = ["rt-multi-thread", "macros"] }
async-trait = "=0.1.92"
tracing = "=0.1.44"
futures = "=0.3.34"
azure_data_cosmos = "*"
azure_identity = "*"
