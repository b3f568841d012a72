//! A verified micro-benchmark core for a filter-and-sum workload over a
//! synthetic user dataset.
//!
//! The library generates a reproducible dataset of users from a seed, offers
//! several data-layout strategies (columnar arrays, owned-record collections
//! with linear or indexed lookup, and a layered data-access/domain-rule pair),
//! and proves that every strategy computes the same aggregation checksum: the
//! sum of the balances of active users whose balance meets a threshold.
//! A benchmark harness drives warmup and timed repetitions of the aggregation
//! and derives throughput statistics.
//!
//! Balances are held in thousandths of a currency unit, so sums and threshold
//! comparisons are exact integer arithmetic.

pub mod aggregate;
pub mod dataset;
pub mod columnar;
pub mod harness;
pub mod layered;
pub mod prng;
pub mod repository;
pub mod strategy;
pub mod user;
