//! Backoff for an SP that answers "busy".
//!
//! A busy reply is absorbed inside the current RPC attempt: the core sleeps
//! and resends without spending retry budget. The sleep grows exponentially
//! from 20 ms by a factor of two up to a 1000 ms ceiling, and never gives
//! up.

use vstd::prelude::*;

verus! {

/// First busy-backoff sleep, in milliseconds.
pub const BUSY_BACKOFF_INITIAL_MS: u64 = 20;

/// Ceiling on a busy-backoff sleep, in milliseconds.
pub const BUSY_BACKOFF_MAX_MS: u64 = 1000;

/// Exponential busy backoff: the next sleep to take, doubled after each
/// use until it reaches the ceiling.
#[derive(Clone, Copy, Debug, PartialEq, Eq, Structural)]
pub struct BusyBackoff {
    pub next_ms: u64,
}

impl BusyBackoff {
    pub open spec fn wf(self) -> bool {
        BUSY_BACKOFF_INITIAL_MS <= self.next_ms <= BUSY_BACKOFF_MAX_MS
    }

    /// What one use of the backoff leaves behind.
    pub open spec fn spec_advanced(self) -> BusyBackoff {
        if 2 * self.next_ms <= BUSY_BACKOFF_MAX_MS {
            BusyBackoff { next_ms: (2 * self.next_ms) as u64 }
        } else {
            BusyBackoff { next_ms: BUSY_BACKOFF_MAX_MS }
        }
    }

    pub fn new() -> (b: BusyBackoff)
        ensures
            b.next_ms == BUSY_BACKOFF_INITIAL_MS,
            b.wf(),
    {
        BusyBackoff { next_ms: BUSY_BACKOFF_INITIAL_MS }
    }

    /// Returns the sleep to take now and doubles the next one, capped.
    ///
    /// Unlike a general-purpose backoff this one has no give-up case: an SP
    /// that stays busy is waited out for as long as the attempt timer lets
    /// it.
    pub fn next_backoff(&mut self) -> (ms: u64)
        requires
            old(self).wf(),
        ensures
            ms == old(self).next_ms,
            *final(self) == old(self).spec_advanced(),
            final(self).wf(),
    {
        let ms = self.next_ms;
        if self.next_ms <= BUSY_BACKOFF_MAX_MS / 2 {
            self.next_ms = 2 * self.next_ms;
        } else {
            self.next_ms = BUSY_BACKOFF_MAX_MS;
        }
        ms
    }
}

} // verus!
