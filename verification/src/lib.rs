//! A micro-benchmarking harness for studying how code alignment moves the
//! latency of otherwise identical functions.
//!
//! The library holds the verified core: the saturating factorial-like
//! workload that every family member computes, the function family
//! generator, the execution-order randomizer, the timing harness with its
//! minimum-of-many statistic, and the aggregate min/max/spread report.

mod barrier;
pub mod errors;
pub mod harness;
pub mod order;
pub mod report;
pub mod stats;
pub mod workload;

pub use errors::ConfigError;
pub use harness::measure;
pub use harness::HarnessConfig;
pub use order::random_order;
pub use report::aggregate;
pub use report::Measurement;
pub use report::Report;
pub use stats::fold_min;
pub use workload::make_family;
pub use workload::run_member;
pub use workload::FamilyMember;
