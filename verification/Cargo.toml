[package]
name = "codecurator"
version = "0.1.0"
edition = "2021"
publish = false

[dependencies]
bytes = "=1.12.1"
colored = "=3.1.1"
futures = "=0.3.34"
getrandom = "=0.4.3"
jsonl = "=4.0.1"
rayon = "=1.12.0"
reqwest = "=0.13.5"
serde = { version = "=1.0.229", features = ["derive"] }
tokenizers = { version = "=0.23.2", default-features = false, features = ["onig"] }
tokio = { version = "=1.54.1", features = ["full"] }
uuid = { version = "=1.29.0", features = ["v4"] }
zip = { version = "=9.2.2", default-features = false, features = ["deflate"] }
