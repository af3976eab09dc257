[package]
name = "giza_benchmark"
version = "0.1.0"
edition = "2021"
publish = false

[dependencies]
bincode = { version = "=2.0.1", features = ["serde"] }
cairo-lang-sierra = "=2.7.1"
cairo-vm = { version = "=1.0.2", default-features = false, features = ["std"] }
clap = "=3.2.25"
jemalloc-ctl = "=0.5.4"
jemallocator = "=0.5.4"
lambdaworks-math = "=0.7.0"
serde_json = "=1.0.154"
starknet-types-core = "=0.1.5"
sys-info = "=0.9.1"
tokio = { version = "=1.54.1", features = ["macros", "process", "rt-multi-thread"] }
tracing = "=0.1.44"
