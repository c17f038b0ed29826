//! A telemetry-driven load pipeline: a job/context data model, a rate-paced
//! producer that synthesizes delivery jobs, a cumulative latency aggregator,
//! and a periodic reporter that formats aggregated statistics.

pub mod encode;
pub mod load_generator;
pub mod metrics;
pub mod reporter;
pub mod request;

pub use metrics::Gauge;
pub use request::{Context, Job, Request};
