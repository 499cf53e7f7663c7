//! Throughput telemetry for a chain's new-head stream: the decisions of the
//! subscription and sink-writer retry loops, the enrichment poll, and the
//! arithmetic that turns one head event into five data points.

pub mod backoff;
pub mod hex;
pub mod throughput;
pub mod points;
pub mod enrich;
pub mod pipeline;
pub mod subscription;
pub mod text;
pub mod writer;
pub mod urls;
pub mod sink;
pub mod cli;
pub mod probe_cli;
pub mod health;
