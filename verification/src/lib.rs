//! A telemetry-counting library: events from a small closed taxonomy are
//! classified into per-interface category counters, and the counts can be
//! rendered as a deterministic, percentage-ranked report or dumped as a raw
//! snapshot.

pub mod counters;
pub mod events;
pub mod report;
pub mod snapshot;
pub mod tables;
pub mod text;
