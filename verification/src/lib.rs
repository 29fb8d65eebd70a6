//! State core of a live train-telemetry dashboard.
//!
//! The crate keeps a bounded history of polled snapshots, tracks which of
//! the four dashboard panels has keyboard focus, tracks the selection inside
//! the stop list, and derives every value the panels display. All of it is
//! plain data in, plain data out: fetching snapshots, reading keys and
//! drawing to a terminal are left to the embedding program.

pub mod api;
pub mod buffer;
pub mod cursor;
pub mod frontend;
pub mod metrics;
pub mod panels;
