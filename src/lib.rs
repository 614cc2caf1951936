//! Execution core of a concurrent HTTP load generator: per-request result
//! records, their aggregation into a report, target parsing, lane dispatch
//! and outcome classification.
pub mod benchmark;
pub mod execution;
pub mod settings;

pub use benchmark::{Average, Report, Result};
pub use execution::{build_request, classify, request_parts, Lane, RequestParts};
pub use settings::{Args, Operation, Settings};
