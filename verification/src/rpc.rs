//! Retry budget and per-attempt bookkeeping of one RPC.
//!
//! An RPC is one logical request: a message id is taken once, the request
//! is (re)sent up to a budget of attempts, and every retry reuses the same
//! id. One *attempt* is one per-attempt timer window; within it the SP may
//! answer "busy" any number of times without spending budget.

use crate::backoff::BusyBackoff;
use crate::backoff::BUSY_BACKOFF_INITIAL_MS;
use crate::error::CommunicationError;
use crate::message::InboundMessage;
use crate::message::MgsRequest;
use crate::message::SpResponse;
use crate::types::SpAddr;
use crate::types::SpComponent;
use vstd::prelude::*;

verus! {

/// Wall-clock allowance for an SP self-reset: the retry budget of a
/// self-reset trigger is inflated so the total wait reaches this long.
pub const SP_RESET_TIME_ALLOWED_MS: u64 = 30000;

/// The attempt budget a self-reset trigger gets: enough per-attempt
/// windows to cover the wall-clock allowance.
pub open spec fn spec_self_reset_attempts(per_attempt_timeout_ms: u64) -> int {
    let p = if per_attempt_timeout_ms == 0 {
        1int
    } else {
        per_attempt_timeout_ms as int
    };
    (SP_RESET_TIME_ALLOWED_MS + p - 1) / p
}

/// Computes `ceil(30000 / max(1, per_attempt_timeout_ms))`.
pub fn self_reset_attempts(per_attempt_timeout_ms: u64) -> (n: usize)
    ensures
        n == spec_self_reset_attempts(per_attempt_timeout_ms),
        1 <= n <= SP_RESET_TIME_ALLOWED_MS,
{
    let p: u64 = if per_attempt_timeout_ms == 0 {
        1
    } else {
        per_attempt_timeout_ms
    };
    if p >= SP_RESET_TIME_ALLOWED_MS {
        proof {
            assert((SP_RESET_TIME_ALLOWED_MS + p - 1) / (p as int) == 1) by (nonlinear_arith)
                requires
                    p >= SP_RESET_TIME_ALLOWED_MS,
                    SP_RESET_TIME_ALLOWED_MS == 30000,
            ;
        }
        1
    } else {
        let n: u64 = (SP_RESET_TIME_ALLOWED_MS + p - 1) / p;
        proof {
            assert(1 <= (SP_RESET_TIME_ALLOWED_MS + p - 1) / (p as int)
                <= SP_RESET_TIME_ALLOWED_MS) by (nonlinear_arith)
                requires
                    1 <= p < SP_RESET_TIME_ALLOWED_MS,
                    SP_RESET_TIME_ALLOWED_MS == 30000,
            ;
        }
        n as usize
    }
}

/// The attempt budget of one RPC: the configured cap, except that requests
/// which reset the SP itself get the wall-clock-derived budget instead.
pub open spec fn spec_max_attempts(
    kind: MgsRequest,
    configured_max: usize,
    per_attempt_timeout_ms: u64,
) -> int {
    if kind.is_self_reset() {
        spec_self_reset_attempts(per_attempt_timeout_ms)
    } else {
        configured_max as int
    }
}

/// Computes the attempt budget for `kind`.
///
/// For a self-reset trigger the budget does not depend on the configured
/// cap at all.
pub fn max_attempts_for(
    kind: &MgsRequest,
    configured_max: usize,
    per_attempt_timeout_ms: u64,
) -> (n: usize)
    ensures
        n == spec_max_attempts(*kind, configured_max, per_attempt_timeout_ms),
{
    let self_reset: bool = match kind {
        MgsRequest::ResetComponentTrigger { component } => *component == SpComponent::sp_itself(),
        MgsRequest::ResetTrigger => true,
        _ => false,
    };
    if self_reset {
        self_reset_attempts(per_attempt_timeout_ms)
    } else {
        configured_max
    }
}

/// The reactor-side state of one logical RPC.
///
/// The message id is fixed when the call starts and is reused by every
/// retry; only `attempts_used` moves.
#[derive(Clone, Copy, Debug, PartialEq, Eq, Structural)]
pub struct RpcCall {
    pub message_id: u32,
    pub max_attempts: usize,
    pub attempts_used: usize,
}

/// The state of one attempt: only the busy backoff, which starts over with
/// each attempt.
#[derive(Clone, Copy, Debug, PartialEq, Eq, Structural)]
pub struct Attempt {
    pub backoff: BusyBackoff,
}

impl RpcCall {
    /// Takes the next attempt out of the budget, or reports the budget
    /// spent.
    ///
    /// The message id never changes: a retry reuses the id of the call.
    pub fn begin_attempt(&mut self) -> (r: Option<Attempt>)
        ensures
            final(self).message_id == old(self).message_id,
            final(self).max_attempts == old(self).max_attempts,
            old(self).attempts_used < old(self).max_attempts ==> {
                &&& r matches Some(a) && a.backoff.next_ms == BUSY_BACKOFF_INITIAL_MS
                &&& final(self).attempts_used == old(self).attempts_used + 1
            },
            old(self).attempts_used >= old(self).max_attempts ==> r is None && *final(self)
                == *old(self),
    {
        if self.attempts_used < self.max_attempts {
            self.attempts_used = self.attempts_used + 1;
            Some(Attempt { backoff: BusyBackoff::new() })
        } else {
            None
        }
    }

    /// The error reported when every attempt timed out. It names the
    /// configured cap, which is what the caller knows about, even where a
    /// self-reset inflated the real budget.
    pub fn exhausted_error(&self, configured_max: usize) -> (e: CommunicationError)
        ensures
            e == CommunicationError::ExhaustedNumAttempts(configured_max),
    {
        CommunicationError::ExhaustedNumAttempts(configured_max)
    }
}

/// What the driver observed while an attempt was waiting.
#[derive(Clone, Debug)]
pub enum AttemptEvent {
    /// The per-attempt timer fired before a matching reply arrived.
    TimerExpired,
    /// A message arrived from the socket.
    Message(InboundMessage),
}

/// What the driver must do next with the current attempt.
#[derive(Clone, Debug)]
pub enum AttemptStep {
    /// Keep waiting for the next message. The request is *not* resent and
    /// the per-attempt timer is *not* reset: a storm of out-of-band
    /// traffic still times the attempt out.
    Wait,
    /// The SP is busy: sleep `ms`, then resend the request, reset the
    /// per-attempt timer and keep waiting — all within this same attempt.
    SleepThenResend { ms: u64 },
    /// This attempt is dead (timeout, or a reply with a foreign id); the
    /// call's outer loop decides whether budget remains for another.
    GiveUp,
    /// The SP reported an error; the whole call fails with it.
    Fail(CommunicationError),
    /// The SP answered the call.
    Complete { peer: SpAddr, response: SpResponse, data: Vec<u8> },
}

} // verus!
