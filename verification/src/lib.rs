//! Verified core of a benchmark harness for zero-knowledge machine-learning
//! frameworks: argument parsing for Cairo programs, run configuration,
//! command lines and stage decisions of the benchmarks, proof-file framing,
//! metric arithmetic and the layout of the metrics tables.

pub mod args;
pub mod commands;
pub mod felt;
pub mod layout;
pub mod metrics;
pub mod pipeline;
pub mod proof_file;
pub mod run_config;
pub mod system_metrics;
pub mod table;

pub use metrics::start_metrics;
