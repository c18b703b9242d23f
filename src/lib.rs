//! Battery telemetry normalization and a time-indexed history of snapshots.

pub mod capacity;
pub mod laws;
pub mod query;
pub mod sampler;
pub mod store;
pub mod telemetry;
pub mod text;
