//! GPU telemetry collection and normalization: parsing vendor tool output into
//! uniform device and process records, and assembling them into one snapshot.

pub mod text;
pub mod number;
pub mod record;
pub mod nvidia;
pub mod amd;
pub mod snapshot;
pub mod config;
