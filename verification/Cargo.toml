[package]
name = "js"
version = "0.1.0"
edition = "2021"
publish = false

[dependencies]
anyhow = "1"
axum = "*"
crossbeam = "*"
deno_ast = { version = "*", features = ["transpiling"] }
include_dir = "*"
log = "*"
quickjs-rusty = "*"
serde = { version = "1", features = ["derive"] }
serde_json = "1"
thiserror = "*"
tokio = { version = "1", features = ["sync", "rt", "rt-multi-thread", "macros", "time"] }
