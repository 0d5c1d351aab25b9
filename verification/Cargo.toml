[package]
name = "graph_bench"
version = "0.1.0"
edition = "2021"
publish = false

[dependencies]
fake = "=2.9.2"
surrealdb = { version = "=1.5.6", default-features = false, features = ["protocol-ws"] }
tokio = { version = "1", features = ["rt-multi-thread", "macros", "time"] }
color-eyre = { version = "0.6", default-features = false }
serde = { version = "1", features = ["derive"] }
