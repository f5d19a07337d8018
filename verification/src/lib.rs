//! Metrics-aggregation agent core: exponential-bucket histograms with an
//! overflow/reset policy, order-independent fingerprinting of action records,
//! per-fingerprint histogram collections with "total"/"untracked" accounting,
//! and the decision logic of the aggregation/export pipeline.

pub mod config;
pub mod constants;
pub mod decimal;
pub mod metrics;
pub mod records;
pub mod util;
pub mod workers;
