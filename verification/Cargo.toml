[package]
name = "openai_func_enums"
version = "0.3.0"
edition = "2021"
publish = false

[dependencies]
async-openai = "0.19"
async-trait = "0.1"
rkyv = { version = "0.7", features = ["validation"] }
serde = { version = "1", features = ["derive"] }
serde_json = "1"
tiktoken-rs = "0.5"
tokio = { version = "1", features = ["rt-multi-thread", "sync", "macros"] }
