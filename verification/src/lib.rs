//! Start-up of a sequencer node's HTTP API.
//!
//! A node takes part in consensus and serves an HTTP API beside it. Which API
//! modules it serves, and from which storage, is given by [`api::options::Options`].
//! From the options this crate decides what has to be brought up and in which
//! order, and follows the bring-up step by step:
//!
//! * [`api::topology`] picks one of four arrangements of the server;
//! * [`api::plan`] lists the outside work that the arrangement takes;
//! * [`api::startup`] walks that list, one report of finished work at a time;
//! * [`api::laws`] states what holds of every such walk;
//! * [`api::address`] gives the address that the server listens on.
//!
//! The crate performs no outside work itself. The caller opens the storage,
//! creates the consensus handle and runs the server, and reports to the
//! sequence in [`api::startup`] what came of each step.

pub mod api;
pub mod persistence;
