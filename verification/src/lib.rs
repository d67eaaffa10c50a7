//! A persistent-connection relay: it keeps one streaming connection to a
//! remote message source alive, classifies each inbound text payload by its
//! embedded `path` attribute, and decides which local HTTP endpoint the
//! payload's `body` must be forwarded to.
//!
//! The routing, classification and lifecycle decisions live here, verified;
//! the surrounding network plumbing hands this crate plain values and carries
//! its decisions out.

use vstd::prelude::*;

pub mod connector;
pub mod game;
pub mod lifecycle;
pub mod router;

verus! {

/// Target interval between two liveness signals, in seconds.
pub const KEEPALIVE_INTERVAL_SECS: u64 = 10;

/// Fixed delay before every reconnection attempt, in seconds.
pub const RECONNECT_DELAY_SECS: u64 = 1;

} // verus!
