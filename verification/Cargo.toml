[package]
name = "pg_index_import"
version = "0.1.0"
edition = "2021"
publish = false

[dependencies]
anyhow = "*"
async-recursion = "*"
bb8 = "*"
bb8-postgres = "*"
clap = { version = "*", features = ["derive"] }
colored = "*"
flume = "*"
futures-util = "*"
tiberius = "*"
tokio = { version = "*", features = ["full"] }
tokio-postgres = "*"
tokio-util = { version = "*", features = ["compat"] }
