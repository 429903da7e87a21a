//! Timing of the session monitor: how long it waits before it fires.
//!
//! The host spawns a waiter with the deadline and the generation that
//! `SharedSessionState::unlock` returned; when the wait is over it calls
//! `SharedSessionState::expire` with that generation, which locks the
//! session only if no later unlock has superseded it.

use vstd::prelude::*;

use crate::session::SessionModel;

verus! {

/// Seconds before the deadline at which the session is locked.
pub const SESSION_EXPIRY_BUFFER: i64 = 10;

/// Seconds from `now` until the monitor must fire: the deadline less `now`
/// less the safety buffer, which may be zero or negative.
pub open spec fn time_left(deadline: i64, now: i64) -> int {
    deadline - now - SESSION_EXPIRY_BUFFER
}

/// The wait of a monitor: `time_left`, or zero where that is not positive.
pub open spec fn delay_of(deadline: i64, now: i64) -> int {
    if time_left(deadline, now) <= 0 {
        0
    } else {
        time_left(deadline, now)
    }
}

/// How many seconds a monitor spawned at `now` (seconds since the Unix
/// epoch) waits before it fires for a session that expires at `deadline`.
pub fn monitor_delay(deadline: i64, now: i64) -> (r: u64)
    ensures
        r == delay_of(deadline, now),
{
    let left: i128 = deadline as i128 - now as i128 - SESSION_EXPIRY_BUFFER as i128;
    if left <= 0 {
        0
    } else {
        left as u64
    }
}

/// A monitor whose deadline has already passed fires at once, and, where its
/// generation is still the current one, locks the session.
pub proof fn lemma_past_deadline_fires_at_once<H>(
    s: SessionModel<H>,
    generation: u64,
    deadline: i64,
    now: i64,
)
    requires
        deadline < now,
        s.expires_at(generation),
    ensures
        delay_of(deadline, now) == 0,
        s.after_expire(generation).is_locked(),
{
}

} // verus!
