//! A fixed-size worker pool, modelled and verified.
//!
//! The pool owns a bounded set of long-lived workers that consume units of
//! work from a shared queue and run them to completion, with deterministic,
//! leak-free shutdown.  The library captures the pool's protocol — queue
//! transport, worker lifecycle, pool lifecycle — as a state machine whose
//! transitions carry full contracts, together with the pure request-routing
//! and response-formatting logic of the HTTP front end that submits work to
//! the pool.  The thread, socket and file plumbing around it stays outside.

use vstd::prelude::*;

pub mod http;
pub mod pool;
pub mod queue;
pub mod worker;

verus! {

/// The unrecoverable failures a pool can report.
///
/// Per-job failures are deliberately absent: a job that fails is contained to
/// that single execution and is never surfaced through the pool's interface.
#[derive(Debug, PartialEq, Eq, Structural)]
pub enum PoolError {
    /// Construction was attempted with zero workers.
    ZeroSize,
    /// A submission arrived after the submission endpoint was removed,
    /// which indicates use after teardown.
    Closed,
}

} // verus!
