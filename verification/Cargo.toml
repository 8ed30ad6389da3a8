[package]
name = "asmov_common"
version = "0.1.0"
edition = "2021"
publish = false

[dependencies]
anyhow = "=1.0.104"
chrono = "=0.4.45"
clap = { version = "=4.6.7", features = ["derive"] }
colored = "=3.1.1"
convert_case = "=0.6.0"
proc-macro2 = "=1.0.107"
quote = "=1.0.47"
rand = "=0.8.8"
regex = "=1.13.1"
shutdown_hooks = "=0.1.0"
sqlx = { version = "=0.8.6", default-features = false, features = ["sqlite", "postgres", "runtime-tokio"] }
syn = { version = "=2.0.119", features = ["full"] }
toml = "=0.8.23"
