//! The HTTP API of a sequencer node: its options and its start-up.

pub mod address;
pub mod laws;
pub mod options;
pub mod plan;
pub mod startup;
pub mod topology;
