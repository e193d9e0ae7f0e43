[package]
name = "transformer_rs"
version = "0.1.0"
edition = "2021"
publish = false

[dependencies]
bincode = "1.3"
candle-core = "0.9"
candle-nn = "0.9"
clap = { version = "4", features = ["derive"] }
rand = "0.8"
serde = { version = "1", features = ["derive"] }
sha2 = "0.10"
tokenizers = { version = "0.21", default-features = false, features = ["onig"] }
