[package]
name = "similarity_search"
version = "0.1.0"
edition = "2021"
publish = false

[dependencies]
hnsw_rs = "0.3"
anyhow = "1"
log = "0.4"
tokio = { version = "1", features = ["rt-multi-thread", "sync", "macros"] }
async-openai = "0.23"

[dev-dependencies]
tempfile = "3"
