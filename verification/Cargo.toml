[package]
name = "bb8_surrealdb2"
version = "0.1.0"
edition = "2021"
publish = false

[dependencies]
async-trait = "0.1"
bb8 = "0.8"
surrealdb = { version = "=1.3.1", default-features = false, features = ["kv-mem"] }

[dev-dependencies]
tokio = { version = "1", features = ["rt", "rt-multi-thread", "time"] }
