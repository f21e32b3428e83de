//! Points in time, as the engine stores them.

use vstd::prelude::*;

verus! {

/// A point in time: whole seconds since 1970-01-01 00:00:00 UTC, and the
/// nanoseconds into that second.
#[derive(Debug, Clone, Copy, PartialEq, Eq, Structural)]
pub struct Timestamp {
    pub secs: i64,
    pub nanos: u32,
}

impl Timestamp {
    /// A reading of a clock that runs after the epoch and counts no leap second.
    pub open spec fn is_clock_reading(self) -> bool {
        self.secs >= 0 && self.nanos < 1_000_000_000
    }
}

/// The current time, read with `chrono::Utc::now`.
///
/// Trusted: the contract says that the reading is not before the epoch and
/// that its nanoseconds stay below one second. `Utc::now` builds its result
/// from the time elapsed since the epoch and panics on a machine whose clock
/// stands before it; nothing else is claimed of the value.
#[verifier::external_body]
pub(crate) fn current_time() -> (now: Timestamp)
    ensures
        now.is_clock_reading(),
{
    let now = chrono::Utc::now();
    Timestamp { secs: now.timestamp(), nanos: now.timestamp_subsec_nanos() }
}

} // verus!
