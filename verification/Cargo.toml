[package]
name = "cargo_code_search"
version = "0.1.0"
edition = "2021"
publish = false

[dependencies]
clap = "2"
dotenv = "0.15"
reqwest = { version = "0.11", default-features = false }
tokio = { version = "1", features = ["macros", "rt-multi-thread"] }
