//! A verified model of a bounded-concurrency load-generation client: the
//! request pump that keeps a fixed number of requests in flight per
//! connection, the per-connection success/failure tally, and the aggregation
//! of tallies into a final report.

pub mod config;
pub mod greeter;
pub mod orchestrator;
pub mod pump;
pub mod report;
pub mod request;
pub mod tally;
