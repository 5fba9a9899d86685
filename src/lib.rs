//! Telemetry ingestion and selection state behind a terminal dashboard for
//! containerised workloads.

pub mod dashboard;
pub mod log;
pub mod series;
pub mod status;
pub mod telemetry;
pub mod text;
pub mod workload;
