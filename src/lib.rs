//! A background status reporter: it samples host load and pushes a compact
//! report to a remote collection endpoint on a fixed cadence.
//!
//! The library holds the verified logic: the validated configuration, the
//! report target and request headers, the response classification and the
//! scheduling and retry policy of the reporting loop.

pub mod config;
pub mod interval;
pub mod report;
pub mod schedule;

pub use config::{MissingField, Reporter, ReporterBuilder};
pub use interval::Interval;
pub use report::{classify_response, cpu_load_divisor, ReporterManager};
pub use schedule::{Action, Event, Phase, Schedule};
