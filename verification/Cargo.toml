[package]
name = "async-channel-abs"
version = "0.1.0"
edition = "2021"
publish = false

[dependencies]
async-channel = "=2.5.0"
async-trait = "=0.1.92"
futures = "=0.3.34"
thiserror = "=2.0.21"
tokio = { version = "=1.54.1", default-features = false, features = ["sync", "macros"] }

[dev-dependencies]
tokio = { version = "=1.54.1", default-features = false, features = ["sync", "macros", "rt"] }
