//! Supervision core for a long-lived external media-encoding process.
//!
//! The library holds the verified logic: the filter-graph and command-line
//! builders (pure functions of the configuration snapshot) and the
//! supervisor state machine that decides spawning, draining, restarting
//! and shutdown. The surrounding process and thread plumbing lives outside
//! the library and drives the state machine with events.

pub mod channel;
pub mod config;
pub mod dec;
pub mod filter;
pub mod supervisor;

use vstd::prelude::*;

verus! {

/// Capacity of one stream chunk buffer, in bytes.
pub const CHUNK_SIZE: usize = 65088;

} // verus!
