[package]
name = "rust_mongo"
version = "0.1.0"
edition = "2021"
publish = false

[dependencies]
mongodb = "2"
bson = "2"
warp = "0.3"
hyper = "0.14"
tokio = { version = "1", features = ["macros", "rt-multi-thread"] }
serde = { version = "1", features = ["derive"] }
serde_json = "1"
thiserror = "1"
dotenv = "0.15"
futures = "0.3"
