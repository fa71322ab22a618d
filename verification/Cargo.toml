[package]
name = "plm-local"
version = "0.1.0"
edition = "2021"
publish = false

[dependencies]
anyhow = "*"
candle-core = "=0.11.0"
candle-nn = "=0.11.0"
clap = { version = "*", default-features = false, features = ["std", "derive", "help", "usage", "error-context"] }
polars = { version = "*", default-features = false, features = ["csv"] }
tokenizers = { version = "*", default-features = false, features = ["onig", "esaxx_fast"] }
